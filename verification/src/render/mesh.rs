//! Texture-backed meshes: decoding an image into RGBA pixels, the copy
//! layout for uploading them, and the quad they are drawn on.

use vstd::prelude::*;

use crate::math::{Rect, Vec2, F32_HALF, F32_NEG_HALF};
use crate::render::primitives::{textured_vertices, Primitive, Quad, VertexTextured};
use crate::render::{Gfx, RenderError};

verus! {

#[verifier::external_type_specification]
#[verifier::external_body]
pub struct ExDynamicImage(image::DynamicImage);

#[verifier::external_type_specification]
#[verifier::external_body]
pub struct ExImageError(image::ImageError);

/// Whether the bytes decode as an image: the built-in signature guess
/// finds their format and the built-in decoder for that format accepts
/// them. Both read the bytes alone, so the outcome is a function of them.
pub uninterp spec fn decode_ok(bytes: Seq<u8>) -> bool;

/// The pixel width of the image the bytes decode into.
pub uninterp spec fn decoded_width(bytes: Seq<u8>) -> u32;

/// The pixel height of the image the bytes decode into.
pub uninterp spec fn decoded_height(bytes: Seq<u8>) -> u32;

/// The RGBA pixel buffer of the image the bytes decode into.
pub uninterp spec fn decoded_rgba(bytes: Seq<u8>) -> Seq<u8>;

/// Relies on `image::guess_format` and `image::load_from_memory_with_format`
/// (the result read out through `DynamicImage::to_rgba8`,
/// `ImageBuffer::dimensions` and `ImageBuffer::into_raw`). The format guess
/// uses only the built-in signature table, and decoding a built-in format
/// uses only the built-in decoders — neither consults the crate's mutable
/// hook registries — so the outcome is a function of the bytes alone. An
/// image buffer always holds at least `width * height` four-byte RGBA
/// pixels.
#[verifier::external_body]
fn decode_rgba(bytes: &[u8]) -> (r: Result<(u32, u32, Vec<u8>), image::ImageError>)
    ensures
        r is Ok <==> decode_ok(bytes@),
        r matches Ok(t) ==> {
            &&& t.0 == decoded_width(bytes@)
            &&& t.1 == decoded_height(bytes@)
            &&& t.2@ == decoded_rgba(bytes@)
            &&& t.2@.len() >= 4 * (t.0 as int) * (t.1 as int)
        },
{
    let format = image::guess_format(bytes)?;
    match image::load_from_memory_with_format(bytes, format) {
        Ok(img) => {
            let buf = img.to_rgba8();
            let (width, height) = buf.dimensions();
            Ok((width, height, buf.into_raw()))
        },
        Err(e) => Err(e),
    }
}

/// Relies on `image::DynamicImage::to_rgba8` (read out through
/// `ImageBuffer::dimensions` and `ImageBuffer::into_raw`): an image buffer
/// always holds at least `width * height` four-byte RGBA pixels.
#[verifier::external_body]
fn rgba_pixels(img: &image::DynamicImage) -> (r: (u32, u32, Vec<u8>))
    ensures
        r.2@.len() >= 4 * (r.0 as int) * (r.1 as int),
{
    let buf = img.to_rgba8();
    let (width, height) = buf.dimensions();
    (width, height, buf.into_raw())
}

/// How the RGBA pixels are copied into the GPU texture: byte offset into the
/// pixel buffer, bytes per row of the texture, and rows per image.
#[derive(Clone, Copy, Debug, PartialEq, Eq, Structural)]
pub struct TextureUploadLayout {
    pub offset: u64,
    pub bytes_per_row: u32,
    pub rows_per_image: u32,
}

/// The rectangle every texture is drawn on: a unit quad centered on the
/// origin.
pub open spec fn unit_rect() -> Rect {
    Rect {
        min: Vec2 { x: F32_NEG_HALF, y: F32_NEG_HALF },
        max: Vec2 { x: F32_HALF, y: F32_HALF },
    }
}

/// A texture-backed quad: the decoded image, the layout of its upload to
/// the GPU, and the quad geometry it is drawn with. The shell creates the
/// texture, view, sampler and buffers from these values.
pub struct TexturedQuad {
    /// Texture width in pixels.
    pub width: u32,
    /// Texture height in pixels.
    pub height: u32,
    /// The decoded RGBA pixels, row-major, four bytes per pixel.
    pub rgba: Vec<u8>,
    /// How `rgba` is copied into the texture.
    pub layout: TextureUploadLayout,
    /// The unit quad the texture is drawn on.
    pub quad: Quad<VertexTextured>,
}

impl TexturedQuad {
    /// The pixel buffer covers the whole texture, the copy layout walks it
    /// row by row from the start, and the geometry is the unit quad.
    pub open spec fn well_formed(&self) -> bool {
        &&& self.rgba@.len() >= 4 * (self.width as int) * (self.height as int)
        &&& self.layout.offset == 0
        &&& self.layout.bytes_per_row == 4 * (self.width as int)
        &&& self.layout.rows_per_image == self.height
        &&& self.quad.spec_vertices() == textured_vertices(unit_rect())
    }

    /// Build a textured quad for `gfx` from encoded image bytes.
    pub fn new(_gfx: &Gfx, bytes: &[u8]) -> (r: Result<TexturedQuad, RenderError>)
        ensures
            r is Ok <==> decodes_to_texture(bytes@),
            r matches Ok(t) ==> is_decoded_texture(bytes@, t),
            r matches Err(e) ==> e == RenderError::Image,
    {
        Self::from_bytes(bytes)
    }

    /// Decode encoded image bytes and build the textured quad.
    pub fn from_bytes(bytes: &[u8]) -> (r: Result<TexturedQuad, RenderError>)
        ensures
            r is Ok <==> decodes_to_texture(bytes@),
            r matches Ok(t) ==> is_decoded_texture(bytes@, t),
            r matches Err(e) ==> e == RenderError::Image,
    {
        match decode_rgba(bytes) {
            Ok((width, height, rgba)) => Self::from_rgba(width, height, rgba),
            Err(_) => Err(RenderError::Image),
        }
    }

    /// Build the textured quad from an already decoded image.
    pub fn from_image(img: &image::DynamicImage) -> (r: Result<TexturedQuad, RenderError>)
        ensures
            r matches Ok(t) ==> t.well_formed(),
            r matches Err(e) ==> e == RenderError::Image,
    {
        let (width, height, rgba) = rgba_pixels(img);
        Self::from_rgba(width, height, rgba)
    }

    /// Build the textured quad from raw RGBA pixels.
    ///
    /// The one image rejected is one so wide that a row of its pixels does
    /// not fit the 32-bit copy layout.
    pub fn from_rgba(width: u32, height: u32, rgba: Vec<u8>) -> (r: Result<
        TexturedQuad,
        RenderError,
    >)
        requires
            rgba@.len() >= 4 * (width as int) * (height as int),
        ensures
            r is Ok <==> 4 * (width as int) <= u32::MAX,
            r matches Ok(t) ==> {
                &&& t.width == width
                &&& t.height == height
                &&& t.rgba@ == rgba@
                &&& t.layout == (TextureUploadLayout {
                    offset: 0,
                    bytes_per_row: (4 * width as u64) as u32,
                    rows_per_image: height,
                })
                &&& t.quad.spec_vertices() == textured_vertices(unit_rect())
                &&& t.well_formed()
            },
            r matches Err(e) ==> e == RenderError::Image,
    {
        if width > u32::MAX / 4 {
            return Err(RenderError::Image);
        }

        let layout = TextureUploadLayout {
            offset: 0,
            bytes_per_row: 4 * width,
            rows_per_image: height,
        };

        let quad = Quad::<VertexTextured>::textured(
            Rect::new(
                Vec2::new(F32_NEG_HALF, F32_NEG_HALF),
                Vec2::new(F32_HALF, F32_HALF),
            ),
        );

        Ok(TexturedQuad { width, height, rgba, layout, quad })
    }
}

/// Whether the encoded bytes become a texture: they decode as an image,
/// and a pixel row of it fits the 32-bit copy layout.
pub open spec fn decodes_to_texture(bytes: Seq<u8>) -> bool {
    &&& decode_ok(bytes)
    &&& 4 * (decoded_width(bytes) as int) <= u32::MAX
}

/// Whether `t` is the well-formed texture that the encoded bytes decode
/// into.
pub open spec fn is_decoded_texture(bytes: Seq<u8>, t: TexturedQuad) -> bool {
    &&& t.width == decoded_width(bytes)
    &&& t.height == decoded_height(bytes)
    &&& t.rgba@ == decoded_rgba(bytes)
    &&& t.well_formed()
}

/// A drawable sprite: a textured quad.
pub struct Sprite {
    pub texture: TexturedQuad,
}

impl Sprite {
    /// Build a sprite for `gfx` from the encoded bytes of its image. The
    /// shell reads the image file and hands the bytes in.
    pub fn new(gfx: &Gfx, bytes: &[u8]) -> (r: Result<Sprite, RenderError>)
        ensures
            r is Ok <==> decodes_to_texture(bytes@),
            r matches Ok(s) ==> is_decoded_texture(bytes@, s.texture),
            r matches Err(e) ==> e == RenderError::Image,
    {
        match TexturedQuad::new(gfx, bytes) {
            Ok(texture) => Ok(Sprite { texture }),
            Err(e) => Err(e),
        }
    }
}

/// A piece of text to draw. Mesh generation for text is not implemented
/// yet; the value only carries its contents.
pub struct Text {
    text: String,
}

impl View for Text {
    type V = Seq<char>;

    closed spec fn view(&self) -> Seq<char> {
        self.text@
    }
}

impl Text {
    pub fn new(text: &str) -> (t: Text)
        ensures
            t@ == text@,
    {
        Text { text: text.to_owned() }
    }
}

} // verus!
