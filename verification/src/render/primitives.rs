//! Geometric primitives and the vertex-buffer layouts that describe them.
//!
//! Coordinates and colors are carried as raw `f32` bit patterns (see
//! [`crate::math`]); the layout descriptions use the byte sizes of the
//! corresponding GPU vertex formats.

use vstd::prelude::*;

use crate::math::{Rect, Vec2, Vec3, F32_ONE, F32_ZERO};

verus! {

/// An RGB color. Each channel is the bit pattern of an `f32`.
///
/// The in-memory channel order is `r`, `b`, `g`, as laid out by the shaders.
#[derive(Clone, Copy, Debug, PartialEq, Eq, Structural)]
pub struct Color {
    pub r: u32,
    pub b: u32,
    pub g: u32,
}

impl Color {
    pub fn new(r: u32, g: u32, b: u32) -> (c: Color)
        ensures
            c == (Color { r, b, g }),
    {
        Color { r, b, g }
    }
}

/// The data format of one vertex attribute, by GPU naming.
#[derive(Clone, Copy, Debug, PartialEq, Eq, Structural)]
pub enum VertexFormat {
    Float32x2,
    Float32x3,
}

impl VertexFormat {
    /// The number of bytes one attribute of this format occupies.
    pub open spec fn spec_size(self) -> u64 {
        match self {
            VertexFormat::Float32x2 => 8,
            VertexFormat::Float32x3 => 12,
        }
    }

    pub fn size(&self) -> (n: u64)
        ensures
            n == self.spec_size(),
    {
        match self {
            VertexFormat::Float32x2 => 8,
            VertexFormat::Float32x3 => 12,
        }
    }
}

/// One attribute of a vertex: where it sits in the vertex and which shader
/// location reads it.
#[derive(Clone, Copy, Debug, PartialEq, Eq, Structural)]
pub struct VertexAttribute {
    pub location: u32,
    pub offset: u64,
    pub format: VertexFormat,
}

/// How a vertex type is laid out in a vertex buffer: the distance between
/// consecutive vertices and the attributes inside each one.
#[derive(Clone, Debug)]
pub struct VertexLayout {
    pub array_stride: u64,
    pub attributes: Vec<VertexAttribute>,
}

/// A layout is well formed when its attributes are packed back to back from
/// offset zero, shader locations are numbered in order, and the stride is
/// exactly the bytes the attributes cover.
pub open spec fn layout_well_formed(stride: u64, attrs: Seq<VertexAttribute>) -> bool {
    &&& attrs.len() > 0 ==> attrs[0].offset == 0
    &&& forall|i: int|
        1 <= i < attrs.len() ==> #[trigger] attrs[i].offset == attrs[i - 1].offset
            + attrs[i - 1].format.spec_size()
    &&& forall|i: int| 0 <= i < attrs.len() ==> (#[trigger] attrs[i].location) as int == i
    &&& attrs.len() > 0 ==> stride == attrs.last().offset + attrs.last().format.spec_size()
    &&& attrs.len() == 0 ==> stride == 0
}

/// A vertex type that can be uploaded to a vertex buffer.
pub trait Vertex: Sized + Clone + Copy {
    /// The distance in bytes between consecutive vertices of this type.
    spec fn spec_stride() -> u64;

    /// The attributes of this vertex type, in order.
    spec fn spec_attributes() -> Seq<VertexAttribute>;

    /// Describe the buffer layout of this vertex type.
    fn desc() -> (r: VertexLayout)
        ensures
            r.array_stride == Self::spec_stride(),
            r.attributes@ == Self::spec_attributes(),
            layout_well_formed(r.array_stride, r.attributes@),
    ;
}

/// A vertex with a position and a color.
#[derive(Clone, Copy, Debug, PartialEq, Eq, Structural)]
pub struct VertexColored {
    pub position: Vec3,
    pub color: Color,
}

impl VertexColored {
    pub fn new(pos: Vec3, col: Color) -> (v: VertexColored)
        ensures
            v == (VertexColored { position: pos, color: col }),
    {
        VertexColored { position: pos, color: col }
    }
}

impl Vertex for VertexColored {
    open spec fn spec_stride() -> u64 {
        24
    }

    open spec fn spec_attributes() -> Seq<VertexAttribute> {
        seq![
            VertexAttribute { location: 0, offset: 0, format: VertexFormat::Float32x3 },
            VertexAttribute { location: 1, offset: 12, format: VertexFormat::Float32x3 },
        ]
    }

    fn desc() -> (r: VertexLayout) {
        let mut attributes: Vec<VertexAttribute> = Vec::new();
        attributes.push(VertexAttribute { location: 0, offset: 0, format: VertexFormat::Float32x3 });
        attributes.push(
            VertexAttribute { location: 1, offset: 12, format: VertexFormat::Float32x3 },
        );
        proof {
            assert(attributes@ =~= Self::spec_attributes());
        }
        VertexLayout { array_stride: 24, attributes }
    }
}

/// A vertex with a position and texture coordinates.
#[derive(Clone, Copy, Debug, PartialEq, Eq, Structural)]
pub struct VertexTextured {
    pub position: Vec3,
    pub tex_coords: Vec2,
}

impl VertexTextured {
    pub fn new(pos: Vec3, tex_coords: Vec2) -> (v: VertexTextured)
        ensures
            v == (VertexTextured { position: pos, tex_coords }),
    {
        VertexTextured { position: pos, tex_coords }
    }
}

impl Vertex for VertexTextured {
    open spec fn spec_stride() -> u64 {
        20
    }

    open spec fn spec_attributes() -> Seq<VertexAttribute> {
        seq![
            VertexAttribute { location: 0, offset: 0, format: VertexFormat::Float32x3 },
            VertexAttribute { location: 1, offset: 12, format: VertexFormat::Float32x2 },
        ]
    }

    fn desc() -> (r: VertexLayout) {
        let mut attributes: Vec<VertexAttribute> = Vec::new();
        attributes.push(VertexAttribute { location: 0, offset: 0, format: VertexFormat::Float32x3 });
        attributes.push(
            VertexAttribute { location: 1, offset: 12, format: VertexFormat::Float32x2 },
        );
        proof {
            assert(attributes@ =~= Self::spec_attributes());
        }
        VertexLayout { array_stride: 20, attributes }
    }
}

/// The vertex list that [`Quad::colored`] builds from `rect`.
pub open spec fn colored_vertices(rect: Rect) -> Seq<VertexColored> {
    seq![
        VertexColored {
            position: Vec3 { x: rect.min.x, y: rect.min.y, z: F32_ZERO },
            color: Color { r: F32_ZERO, b: F32_ONE, g: F32_ZERO },
        },
        VertexColored {
            position: Vec3 { x: rect.max.x, y: rect.min.y, z: F32_ZERO },
            color: Color { r: F32_ONE, b: F32_ZERO, g: F32_ZERO },
        },
        VertexColored {
            position: Vec3 { x: rect.min.x, y: rect.max.y, z: F32_ZERO },
            color: Color { r: F32_ZERO, b: F32_ZERO, g: F32_ONE },
        },
        VertexColored {
            position: Vec3 { x: rect.max.x, y: rect.max.y, z: F32_ZERO },
            color: Color { r: F32_ZERO, b: F32_ZERO, g: F32_ONE },
        },
    ]
}

/// The vertex list that [`Quad::textured`] builds from `rect`.
pub open spec fn textured_vertices(rect: Rect) -> Seq<VertexTextured> {
    seq![
        VertexTextured {
            position: Vec3 { x: rect.min.x, y: rect.min.y, z: F32_ZERO },
            tex_coords: Vec2 { x: F32_ZERO, y: F32_ONE },
        },
        VertexTextured {
            position: Vec3 { x: rect.max.x, y: rect.min.y, z: F32_ZERO },
            tex_coords: Vec2 { x: F32_ONE, y: F32_ONE },
        },
        VertexTextured {
            position: Vec3 { x: rect.min.x, y: rect.max.y, z: F32_ZERO },
            tex_coords: Vec2 { x: F32_ZERO, y: F32_ZERO },
        },
        VertexTextured {
            position: Vec3 { x: rect.max.x, y: rect.max.y, z: F32_ZERO },
            tex_coords: Vec2 { x: F32_ONE, y: F32_ZERO },
        },
    ]
}

/// A shape that can be drawn: `VS` vertices, and `IS` indices when the shape
/// is drawn indexed.
pub trait Primitive<const VS: usize, const IS: usize> {
    type T;

    /// The vertices of this shape, in buffer order.
    spec fn spec_vertices(&self) -> Seq<Self::T>;

    /// The index list of this shape, if it is drawn indexed.
    spec fn spec_indices(&self) -> Option<Seq<u16>>;

    fn vertices(&self) -> (r: [Self::T; VS])
        ensures
            r@ == self.spec_vertices(),
    ;

    /// Every index returned points at one of the `VS` vertices.
    fn indices(&self) -> (r: Option<[u16; IS]>)
        ensures
            r is Some <==> self.spec_indices() is Some,
            r matches Some(a) ==> Some(a@) == self.spec_indices(),
            r matches Some(a) ==> forall|k: int| 0 <= k < a@.len() ==> (a@[k] as int) < VS as int,
    ;
}

/// Three vertices drawn directly, without an index buffer.
#[derive(Clone, Copy, Debug)]
pub struct Triangle<V: Vertex>(pub V, pub V, pub V);

impl<V: Vertex> Primitive<3, 0> for Triangle<V> {
    type T = V;

    open spec fn spec_vertices(&self) -> Seq<V> {
        seq![self.0, self.1, self.2]
    }

    open spec fn spec_indices(&self) -> Option<Seq<u16>> {
        None
    }

    fn vertices(&self) -> (r: [V; 3]) {
        let r = [self.0, self.1, self.2];
        proof {
            assert(r@ =~= self.spec_vertices());
        }
        r
    }

    fn indices(&self) -> (r: Option<[u16; 0]>) {
        None
    }
}

/// Four corner vertices drawn as two triangles through an index buffer.
#[derive(Clone, Copy, Debug)]
pub struct Quad<V: Vertex> {
    pub vertices: [V; 4],
}

impl<V: Vertex> Primitive<4, 6> for Quad<V> {
    type T = V;

    open spec fn spec_vertices(&self) -> Seq<V> {
        self.vertices@
    }

    open spec fn spec_indices(&self) -> Option<Seq<u16>> {
        Some(seq![0u16, 1u16, 2u16, 2u16, 1u16, 3u16])
    }

    fn vertices(&self) -> (r: [V; 4]) {
        self.vertices
    }

    fn indices(&self) -> (r: Option<[u16; 6]>) {
        let a = [0u16, 1u16, 2u16, 2u16, 1u16, 3u16];
        proof {
            assert(a@ =~= self.spec_indices().unwrap());
        }
        Some(a)
    }
}

impl Quad<VertexColored> {
    /// The corners of `rect` in buffer order (lower-left, lower-right,
    /// upper-left, upper-right), colored blue, red, green and green.
    pub fn colored(rect: Rect) -> (q: Quad<VertexColored>)
        ensures
            q.spec_vertices() == colored_vertices(rect),
    {
        let vertices: [VertexColored; 4] = [
            VertexColored::new(
                Vec3::new(rect.min.x, rect.min.y, F32_ZERO),
                Color::new(F32_ZERO, F32_ZERO, F32_ONE),
            ),
            VertexColored::new(
                Vec3::new(rect.max.x, rect.min.y, F32_ZERO),
                Color::new(F32_ONE, F32_ZERO, F32_ZERO),
            ),
            VertexColored::new(
                Vec3::new(rect.min.x, rect.max.y, F32_ZERO),
                Color::new(F32_ZERO, F32_ONE, F32_ZERO),
            ),
            VertexColored::new(
                Vec3::new(rect.max.x, rect.max.y, F32_ZERO),
                Color::new(F32_ZERO, F32_ONE, F32_ZERO),
            ),
        ];
        let q = Quad { vertices };
        proof {
            assert(q.spec_vertices() =~= colored_vertices(rect));
        }
        q
    }
}

impl Quad<VertexTextured> {
    /// The corners of `rect` in buffer order (lower-left, lower-right,
    /// upper-left, upper-right), with the texture pinned upright: the top of
    /// the image (texture `v` of zero) maps to the top of the rectangle.
    pub fn textured(rect: Rect) -> (q: Quad<VertexTextured>)
        ensures
            q.spec_vertices() == textured_vertices(rect),
    {
        let vertices: [VertexTextured; 4] = [
            VertexTextured::new(
                Vec3::new(rect.min.x, rect.min.y, F32_ZERO),
                Vec2::new(F32_ZERO, F32_ONE),
            ),
            VertexTextured::new(
                Vec3::new(rect.max.x, rect.min.y, F32_ZERO),
                Vec2::new(F32_ONE, F32_ONE),
            ),
            VertexTextured::new(
                Vec3::new(rect.min.x, rect.max.y, F32_ZERO),
                Vec2::new(F32_ZERO, F32_ZERO),
            ),
            VertexTextured::new(
                Vec3::new(rect.max.x, rect.max.y, F32_ZERO),
                Vec2::new(F32_ONE, F32_ZERO),
            ),
        ];
        let q = Quad { vertices };
        proof {
            assert(q.spec_vertices() =~= textured_vertices(rect));
        }
        q
    }
}

} // verus!
