use imgui_image::deferred;
use imgui_image::draw::{ImageDraw, ImageParams};
use imgui_image::image::Image;
use imgui_image::texture::ImTexture;
use imgui_image::vector::{ImVec2, ImVec4, ONE, ZERO};

fn v2(x: f32, y: f32) -> ImVec2 {
    ImVec2::new(x.to_bits(), y.to_bits())
}

fn v4(x: f32, y: f32, z: f32, w: f32) -> ImVec4 {
    ImVec4::new(x.to_bits(), y.to_bits(), z.to_bits(), w.to_bits())
}

#[test]
fn bit_patterns_of_zero_and_one() {
    assert_eq!(ZERO, 0.0f32.to_bits());
    assert_eq!(ONE, 1.0f32.to_bits());
    assert_eq!(f32::from_bits(ONE), 1.0);
    assert_eq!(f32::from_bits(ZERO), 0.0);
}

#[test]
fn eager_build_with_defaults() {
    let draw = Image::new(ImTexture::from(42), v2(100.0, 50.0)).build();
    assert_eq!(draw.texture_id.id(), 42);
    assert_eq!(draw.params.size, v2(100.0, 50.0));
    assert_eq!(draw.params.uv0, v2(0.0, 0.0));
    assert_eq!(draw.params.uv1, v2(1.0, 1.0));
    assert_eq!(draw.params.tint_col, v4(1.0, 1.0, 1.0, 1.0));
    assert_eq!(draw.params.border_col, v4(0.0, 0.0, 0.0, 0.0));
}

#[test]
fn initial_params_are_the_defaults() {
    let params = ImageParams::new(v2(8.0, 16.0));
    assert_eq!(
        params,
        ImageParams {
            size: v2(8.0, 16.0),
            uv0: v2(0.0, 0.0),
            uv1: v2(1.0, 1.0),
            tint_col: v4(1.0, 1.0, 1.0, 1.0),
            border_col: v4(0.0, 0.0, 0.0, 0.0),
        }
    );
}

#[test]
fn each_setter_writes_its_own_field() {
    let draw = Image::new(ImTexture::from(1), v2(1.0, 2.0))
        .size(v2(3.0, 4.0))
        .uv0(v2(0.25, 0.5))
        .uv1(v2(0.75, 0.875))
        .tint_col(v4(0.1, 0.2, 0.3, 0.4))
        .border_col(v4(0.5, 0.6, 0.7, 0.8))
        .build();
    assert_eq!(
        draw,
        ImageDraw {
            texture_id: ImTexture::from(1),
            params: ImageParams {
                size: v2(3.0, 4.0),
                uv0: v2(0.25, 0.5),
                uv1: v2(0.75, 0.875),
                tint_col: v4(0.1, 0.2, 0.3, 0.4),
                border_col: v4(0.5, 0.6, 0.7, 0.8),
            },
        }
    );
}

#[test]
fn one_setter_leaves_the_other_fields() {
    let draw = Image::new(ImTexture::from(9), v2(10.0, 20.0)).tint_col(v4(0.5, 0.5, 0.5, 1.0)).build();
    assert_eq!(draw.params.size, v2(10.0, 20.0));
    assert_eq!(draw.params.uv0, v2(0.0, 0.0));
    assert_eq!(draw.params.uv1, v2(1.0, 1.0));
    assert_eq!(draw.params.tint_col, v4(0.5, 0.5, 0.5, 1.0));
    assert_eq!(draw.params.border_col, v4(0.0, 0.0, 0.0, 0.0));
}

#[test]
fn last_write_wins() {
    let draw = Image::new(ImTexture::from(3), v2(1.0, 1.0))
        .uv0(v2(0.1, 0.1))
        .border_col(v4(1.0, 0.0, 0.0, 1.0))
        .uv0(v2(0.2, 0.2))
        .size(v2(5.0, 5.0))
        .uv0(v2(0.3, 0.3))
        .size(v2(6.0, 7.0))
        .build();
    assert_eq!(draw.params.uv0, v2(0.3, 0.3));
    assert_eq!(draw.params.size, v2(6.0, 7.0));
    assert_eq!(draw.params.border_col, v4(1.0, 0.0, 0.0, 1.0));
    assert_eq!(draw.params.uv1, v2(1.0, 1.0));
    assert_eq!(draw.params.tint_col, v4(1.0, 1.0, 1.0, 1.0));
}

#[test]
fn values_pass_through_unchecked() {
    let draw = Image::new(ImTexture::from(0), v2(-4.0, 0.0))
        .uv0(v2(-1.5, 2.5))
        .uv1(v2(f32::INFINITY, f32::MAX))
        .tint_col(v4(7.0, -7.0, 0.0, 255.0))
        .build();
    assert_eq!(draw.params.size, v2(-4.0, 0.0));
    assert_eq!(draw.params.uv0, v2(-1.5, 2.5));
    assert_eq!(draw.params.uv1, v2(f32::INFINITY, f32::MAX));
    assert_eq!(draw.params.tint_col, v4(7.0, -7.0, 0.0, 255.0));
    let nan = f32::NAN.to_bits();
    let odd = Image::new(ImTexture::from(0), ImVec2::new(nan, nan)).build();
    assert_eq!(odd.params.size.x, nan);
    assert!(f32::from_bits(odd.params.size.y).is_nan());
}

#[test]
fn deferred_build_with_resolved_texture() {
    let texture: Result<ImTexture, String> = Ok(ImTexture::from(42));
    let draw = deferred::Image::new(texture, v2(100.0, 50.0)).build();
    assert_eq!(
        draw,
        Ok(ImageDraw {
            texture_id: ImTexture::from(42),
            params: ImageParams {
                size: v2(100.0, 50.0),
                uv0: v2(0.0, 0.0),
                uv1: v2(1.0, 1.0),
                tint_col: v4(1.0, 1.0, 1.0, 1.0),
                border_col: v4(0.0, 0.0, 0.0, 0.0),
            },
        })
    );
}

#[test]
fn deferred_setters_write_their_fields() {
    let texture: Result<ImTexture, String> = Ok(ImTexture::from(5));
    let draw = deferred::Image::new(texture, v2(2.0, 3.0))
        .uv0(v2(0.5, 0.5))
        .uv1(v2(0.9, 0.9))
        .uv0(v2(0.125, 0.25))
        .tint_col(v4(0.0, 1.0, 0.0, 1.0))
        .border_col(v4(0.0, 0.0, 1.0, 1.0))
        .build();
    assert_eq!(
        draw,
        Ok(ImageDraw {
            texture_id: ImTexture::from(5),
            params: ImageParams {
                size: v2(2.0, 3.0),
                uv0: v2(0.125, 0.25),
                uv1: v2(0.9, 0.9),
                tint_col: v4(0.0, 1.0, 0.0, 1.0),
                border_col: v4(0.0, 0.0, 1.0, 1.0),
            },
        })
    );
}

#[test]
fn deferred_error_comes_out_of_build() {
    let texture: Result<ImTexture, String> = Err(String::from("no such texture"));
    let result = deferred::Image::new(texture, v2(1.0, 1.0)).build();
    assert_eq!(result, Err(String::from("no such texture")));
}

#[test]
fn deferred_error_outlives_every_setter() {
    let texture: Result<ImTexture, u32> = Err(404);
    let result = deferred::Image::new(texture, v2(1.0, 1.0))
        .uv0(v2(0.5, 0.5))
        .uv1(v2(0.6, 0.6))
        .tint_col(v4(0.0, 0.0, 0.0, 0.0))
        .border_col(v4(1.0, 1.0, 1.0, 1.0))
        .build();
    assert_eq!(result, Err(404));
}

fn issue_into<E>(log: &mut Vec<ImageDraw>, result: Result<ImageDraw, E>) -> Result<(), E> {
    log.push(result?);
    Ok(())
}

#[test]
fn failed_lookup_issues_no_draw() {
    let mut log: Vec<ImageDraw> = Vec::new();
    let missing: Result<ImTexture, &str> = Err("gone");
    let built = deferred::Image::new(missing, v2(4.0, 4.0)).uv1(v2(0.5, 0.5)).build();
    assert_eq!(issue_into(&mut log, built), Err("gone"));
    assert_eq!(log.len(), 0);
    let found: Result<ImTexture, &str> = Ok(ImTexture::from(7));
    let built = deferred::Image::new(found, v2(4.0, 4.0)).uv1(v2(0.5, 0.5)).build();
    assert_eq!(issue_into(&mut log, built), Ok(()));
    assert_eq!(log.len(), 1);
    assert_eq!(log[0].texture_id.id(), 7);
    assert_eq!(log[0].params.uv1, v2(0.5, 0.5));
}
