use vge::render::mesh::{Sprite, Text, TexturedQuad};
use vge::render::primitives::Primitive;
use vge::render::{choose_surface_format, wgpu, RenderError, SurfaceCaps};

fn png_bytes(w: u32, h: u32) -> Vec<u8> {
    let img = image::RgbaImage::from_fn(w, h, |x, y| {
        image::Rgba([x as u8, y as u8, 7, 255])
    });
    let mut buf = std::io::Cursor::new(Vec::new());
    image::DynamicImage::ImageRgba8(img)
        .write_to(&mut buf, image::ImageFormat::Png)
        .unwrap();
    buf.into_inner()
}

fn caps(formats_srgb: Vec<bool>) -> SurfaceCaps {
    SurfaceCaps { formats_srgb, present_mode_count: 3, alpha_mode_count: 2 }
}

#[test]
fn format_choice_prefers_first_srgb() {
    assert_eq!(choose_surface_format(&vec![false, true, true]), 1);
    assert_eq!(choose_surface_format(&vec![true, false]), 0);
    assert_eq!(choose_surface_format(&vec![false, false]), 0);
    assert_eq!(choose_surface_format(&vec![false]), 0);
}

#[test]
fn decoded_png_becomes_rgba_pixels() {
    let t = TexturedQuad::from_bytes(&png_bytes(2, 3)).unwrap();
    assert_eq!(t.width, 2);
    assert_eq!(t.height, 3);
    assert_eq!(t.rgba.len(), 24);
    // pixel (1, 2) holds its coordinates in the red and green channels
    let p = &t.rgba[(2 * 2 + 1) * 4..(2 * 2 + 1) * 4 + 4];
    assert_eq!(p, [1, 2, 7, 255]);
    assert_eq!(t.layout.offset, 0);
    assert_eq!(t.layout.bytes_per_row, 8);
    assert_eq!(t.layout.rows_per_image, 3);
}

#[test]
fn garbage_bytes_are_an_image_error() {
    let r = TexturedQuad::from_bytes(&[0, 1, 2, 3]);
    assert!(matches!(r, Err(RenderError::Image)));
}

#[test]
fn oversized_row_is_rejected() {
    let r = TexturedQuad::from_rgba(u32::MAX / 4 + 1, 0, Vec::new());
    assert!(matches!(r, Err(RenderError::Image)));
}

#[test]
fn from_rgba_keeps_pixels_and_layout() {
    let t = TexturedQuad::from_rgba(1, 1, vec![9, 8, 7, 6]).unwrap();
    assert_eq!(t.rgba, vec![9, 8, 7, 6]);
    assert_eq!(t.layout.bytes_per_row, 4);
    assert_eq!(t.layout.rows_per_image, 1);
    assert_eq!(t.quad.indices().unwrap(), [0u16, 1, 2, 2, 1, 3]);
}

#[test]
fn renderer_configuration_decisions() {
    let gfx = wgpu(&caps(vec![false, true]), (640, 480), &png_bytes(4, 4)).unwrap();
    assert_eq!(gfx.config.format_index, 1);
    assert_eq!(gfx.config.present_mode_index, 0);
    assert_eq!(gfx.config.alpha_mode_index, 0);
    assert_eq!(gfx.config.width, 640);
    assert_eq!(gfx.config.height, 480);
    assert_eq!(gfx.config.desired_maximum_frame_latency, 2);
    assert!(!gfx.surface_configured);
    assert_eq!(gfx.vertex_layout.array_stride, 20);
    assert_eq!(gfx.logo.width, 4);
}

#[test]
fn renderer_rejects_bad_logo() {
    let r = wgpu(&caps(vec![true]), (640, 480), &[1, 2, 3]);
    assert!(matches!(r, Err(RenderError::Image)));
}

#[test]
fn resize_reconfigures_the_surface() {
    let mut gfx = wgpu(&caps(vec![true]), (640, 480), &png_bytes(1, 1)).unwrap();
    assert!(!gfx.surface_configured);
    gfx.set_surface_size(800, 600);
    assert!(gfx.surface_configured);
    assert_eq!(gfx.config.width, 800);
    assert_eq!(gfx.config.height, 600);
    assert_eq!(gfx.config.format_index, 0);
}

#[test]
fn no_frame_before_the_surface_is_configured() {
    let gfx = wgpu(&caps(vec![true]), (640, 480), &png_bytes(1, 1)).unwrap();
    assert!(gfx.render(&Vec::new()).is_none());
}

#[test]
fn frame_draws_every_sprite_indexed() {
    let mut gfx = wgpu(&caps(vec![true]), (640, 480), &png_bytes(1, 1)).unwrap();
    gfx.set_surface_size(64, 64);

    let empty = gfx.render(&Vec::new()).unwrap();
    assert_eq!(empty.draws.len(), 0);

    let sprites = vec![
        gfx.create_sprite(&png_bytes(2, 2)).unwrap(),
        gfx.create_sprite(&png_bytes(3, 1)).unwrap(),
    ];
    let plan = gfx.render(&sprites).unwrap();
    assert_eq!(plan.draws.len(), 2);
    assert!(plan.draws.iter().all(|d| d.index_count == 6));
}

#[test]
fn sprite_from_bytes() {
    let gfx = wgpu(&caps(vec![true]), (640, 480), &png_bytes(1, 1)).unwrap();
    let s = Sprite::new(&gfx, &png_bytes(5, 6)).unwrap();
    assert_eq!(s.texture.width, 5);
    assert_eq!(s.texture.height, 6);
    assert!(matches!(
        Sprite::new(&gfx, &[0u8; 2]),
        Err(RenderError::Image)
    ));
}

#[test]
fn text_is_constructible() {
    let _t = Text::new("hello");
    let _u = vge::ctx::mesh::Text::new("world");
}
