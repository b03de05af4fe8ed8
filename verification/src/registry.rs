//! A table from texture handles to the resources a renderer keeps for them.

use std::collections::HashMap;
use vstd::prelude::*;
use crate::texture::ImTexture;

verus! {

/// What a [`Textures`] stands for: the stored resources, keyed by the number
/// of their handle, and the number that the next fresh handle will have.
pub struct Table<T> {
    pub entries: Map<usize, T>,
    pub next: usize,
}

/// One change to a table.
pub enum Change<T> {
    Insert(T),
    Replace(ImTexture, T),
    Remove(ImTexture),
}

impl<T> Table<T> {
    /// The table with nothing in it, whose first handle will be 0.
    pub open spec fn empty() -> Table<T> {
        Table { entries: Map::empty(), next: 0 }
    }

    /// Whether a fresh handle is left to hand out.
    pub open spec fn has_room(self) -> bool {
        self.next < usize::MAX
    }

    /// The table after `texture` was stored under the next fresh handle.
    pub open spec fn insert(self, texture: T) -> Table<T>
        recommends
            self.has_room(),
    {
        Table { entries: self.entries.insert(self.next, texture), next: (self.next + 1) as usize }
    }

    /// The table after `texture` was stored under `id`.
    pub open spec fn replace(self, id: ImTexture, texture: T) -> Table<T> {
        Table { entries: self.entries.insert(id.0, texture), next: self.next }
    }

    /// The table after the entry under `id`, if any, was taken out.
    pub open spec fn remove(self, id: ImTexture) -> Table<T> {
        Table { entries: self.entries.remove(id.0), next: self.next }
    }

    /// The resource stored under `id`, if any.
    pub open spec fn get(self, id: ImTexture) -> Option<T> {
        if self.entries.contains_key(id.0) {
            Some(self.entries[id.0])
        } else {
            None
        }
    }

    /// The table after one change.
    pub open spec fn apply(self, change: Change<T>) -> Table<T> {
        match change {
            Change::Insert(texture) => self.insert(texture),
            Change::Replace(id, texture) => self.replace(id, texture),
            Change::Remove(id) => self.remove(id),
        }
    }

    /// The table after the given changes, applied first to last.
    pub open spec fn apply_all(self, changes: Seq<Change<T>>) -> Table<T>
        decreases changes.len(),
    {
        if changes.len() == 0 {
            self
        } else {
            self.apply_all(changes.drop_last()).apply(changes.last())
        }
    }
}

/// How many of `changes` are inserts.
pub open spec fn count_inserts<T>(changes: Seq<Change<T>>) -> nat
    decreases changes.len(),
{
    if changes.len() == 0 {
        0
    } else {
        count_inserts(changes.drop_last()) + (if changes.last() is Insert {
            1nat
        } else {
            0nat
        })
    }
}

/// Texture storage for a renderer, generic in the resource `T` it keeps.
///
/// The table owns its resources. It hands out fresh handles from a counter
/// that only ever grows, so a handle given by [`Textures::insert`] is never
/// given a second time, whatever is removed in between.
pub struct Textures<T> {
    textures: HashMap<usize, T>,
    next: usize,
}

impl<T> View for Textures<T> {
    type V = Table<T>;

    closed spec fn view(&self) -> Table<T> {
        Table { entries: self.textures@, next: self.next }
    }
}

impl<T> Textures<T> {
    /// An empty table whose first handle will be 0.
    pub fn new() -> (t: Self)
        ensures
            t@ == Table::<T>::empty(),
    {
        Textures { textures: HashMap::new(), next: 0 }
    }

    /// Whether the counter has run out, so that no fresh handle is left.
    pub fn is_exhausted(&self) -> (full: bool)
        ensures
            full == !self@.has_room(),
    {
        self.next == usize::MAX
    }

    /// Stores `texture` under a fresh handle and returns that handle.
    ///
    /// The handle is the counter's value before the call; the counter then
    /// moves on by one. An entry that [`Textures::replace`] put under that
    /// number beforehand is overwritten.
    pub fn insert(&mut self, texture: T) -> (id: ImTexture)
        requires
            old(self)@.has_room(),
        ensures
            id == ImTexture(old(self)@.next),
            final(self)@ == old(self)@.insert(texture),
    {
        let id = self.next;
        self.textures.insert(id, texture);
        self.next += 1;
        ImTexture(id)
    }

    /// As [`Textures::insert`] while a fresh handle is left. Once the counter
    /// has run out, changes nothing and hands `texture` back.
    pub fn try_insert(&mut self, texture: T) -> (result: Result<ImTexture, T>)
        ensures
            old(self)@.has_room() ==> result == Ok::<ImTexture, T>(ImTexture(old(self)@.next))
                && final(self)@ == old(self)@.insert(texture),
            !old(self)@.has_room() ==> result == Err::<ImTexture, T>(texture) && final(self)@
                == old(self)@,
    {
        if self.is_exhausted() {
            Err(texture)
        } else {
            Ok(self.insert(texture))
        }
    }

    /// Stores `texture` under `id`, whether or not `id` was in use, and
    /// returns what was there before. The counter is left alone.
    pub fn replace(&mut self, id: ImTexture, texture: T) -> (previous: Option<T>)
        ensures
            previous == old(self)@.get(id),
            final(self)@ == old(self)@.replace(id, texture),
    {
        self.textures.insert(id.0, texture)
    }

    /// Takes the entry under `id` out of the table and returns it, if there
    /// is one. The counter is left alone, so the handle is not given again.
    pub fn remove(&mut self, id: ImTexture) -> (removed: Option<T>)
        ensures
            removed == old(self)@.get(id),
            final(self)@ == old(self)@.remove(id),
    {
        self.textures.remove(&id.0)
    }

    /// The resource stored under `id`, if there is one.
    pub fn get(&self, id: ImTexture) -> (found: Option<&T>)
        ensures
            found == (match self@.get(id) {
                Some(texture) => Some(&texture),
                None => None,
            }),
    {
        self.textures.get(&id.0)
    }
}

/// Handles count the inserts, and nothing else.
///
/// After any changes, the next fresh handle is the one from before plus the
/// number of inserts among the changes: a replace or a remove in between does
/// not move it, and no handle comes back.
pub proof fn lemma_handles_count_inserts<T>(start: Table<T>, changes: Seq<Change<T>>)
    requires
        start.next + count_inserts(changes) <= usize::MAX,
    ensures
        start.apply_all(changes).next == start.next + count_inserts(changes),
    decreases changes.len(),
{
    if changes.len() > 0 {
        lemma_handles_count_inserts(start, changes.drop_last());
    }
}

/// What was inserted is found under the handle that the insert gave, and
/// every other handle finds what it found before.
pub proof fn lemma_get_after_insert<T>(table: Table<T>, texture: T, other: ImTexture)
    ensures
        table.insert(texture).get(ImTexture(table.next)) == Some(texture),
        other != ImTexture(table.next) ==> table.insert(texture).get(other) == table.get(other),
{
}

/// What was removed is no longer found, and every other handle finds what it
/// found before.
pub proof fn lemma_get_after_remove<T>(table: Table<T>, id: ImTexture, other: ImTexture)
    ensures
        table.remove(id).get(id) == None::<T>,
        other != id ==> table.remove(id).get(other) == table.get(other),
{
}

/// A replace stores its resource under the handle it was given, whether the
/// handle was in use or not, and every other handle finds what it found
/// before. What the replace returns is what the handle found before: nothing
/// exactly when the handle was not in use.
pub proof fn lemma_get_after_replace<T>(table: Table<T>, id: ImTexture, texture: T, other: ImTexture)
    ensures
        table.replace(id, texture).get(id) == Some(texture),
        other != id ==> table.replace(id, texture).get(other) == table.get(other),
        table.get(id) is None <==> !table.entries.contains_key(id.0),
{
}

} // verus!
