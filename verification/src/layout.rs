//! Buffer and attribute layout: the byte counts, component counts, offsets
//! and strides that the rasterizer computes before handing slices to the GL
//! context.

use vstd::prelude::*;

verus! {

/// A 4x4 matrix attribute occupies four consecutive slots, each a column of
/// four floats; one matrix is this many bytes.
pub const MAT4_STRIDE_BYTES: i32 = 64;

/// The kinds of vertex data the rasterizer uploads.
#[derive(Debug, Clone, Copy, PartialEq, Eq, Structural)]
pub enum AttribKind {
    /// A texture coordinate: two floats.
    TexCoord2,
    /// A position: three floats.
    Position3,
    /// A normal: three floats.
    Normal3,
    /// A model matrix: sixteen floats.
    Matrix4,
    /// A vertex index: one 16-bit integer.
    Index16,
}

/// How many components one element of the kind has, as the attribute
/// pointer wants it.
pub open spec fn spec_components(kind: AttribKind) -> int {
    match kind {
        AttribKind::TexCoord2 => 2,
        AttribKind::Position3 => 3,
        AttribKind::Normal3 => 3,
        AttribKind::Matrix4 => 16,
        AttribKind::Index16 => 1,
    }
}

/// How many bytes one element of the kind occupies: four bytes per float
/// component, two for a 16-bit index.
pub open spec fn spec_element_bytes(kind: AttribKind) -> int {
    match kind {
        AttribKind::TexCoord2 => 8,
        AttribKind::Position3 => 12,
        AttribKind::Normal3 => 12,
        AttribKind::Matrix4 => 64,
        AttribKind::Index16 => 2,
    }
}

impl AttribKind {
    /// See [`spec_components`].
    pub fn components(self) -> (n: i32)
        ensures
            n == spec_components(self),
    {
        match self {
            AttribKind::TexCoord2 => 2,
            AttribKind::Position3 => 3,
            AttribKind::Normal3 => 3,
            AttribKind::Matrix4 => 16,
            AttribKind::Index16 => 1,
        }
    }

    /// How many bytes a slice of `n` elements of this kind occupies when
    /// uploaded to the context.
    pub fn byte_len(self, n: usize) -> (bytes: usize)
        requires
            n * spec_element_bytes(self) <= usize::MAX,
        ensures
            bytes == n * spec_element_bytes(self),
    {
        match self {
            AttribKind::TexCoord2 => n * 8,
            AttribKind::Position3 => n * 12,
            AttribKind::Normal3 => n * 12,
            AttribKind::Matrix4 => n * 64,
            AttribKind::Index16 => n * 2,
        }
    }
}

/// One of the four attribute slots a matrix attribute occupies: its slot
/// index and the byte offset of its column within one matrix.
#[derive(Debug, Clone, Copy, PartialEq)]
pub struct MatrixColumn {
    pub location: u32,
    pub byte_offset: i32,
}

/// The four columns of a matrix attribute at `base_location`: consecutive
/// slots, each column sixteen bytes further into the matrix, all at stride
/// [`MAT4_STRIDE_BYTES`].
pub fn matrix_column_layout(base_location: u32) -> (cols: Vec<MatrixColumn>)
    requires
        base_location + 3 <= u32::MAX,
    ensures
        cols@.len() == 4,
        forall|i: int|
            0 <= i < 4 ==> (#[trigger] cols@[i]).location == base_location + i && cols@[i].byte_offset
                == 16 * i,
{
    let mut cols: Vec<MatrixColumn> = Vec::new();
    let mut i: u32 = 0;
    while i < 4
        invariant
            i <= 4,
            base_location + 3 <= u32::MAX,
            cols@.len() == i,
            forall|j: int|
                0 <= j < i ==> (#[trigger] cols@[j]).location == base_location + j
                    && cols@[j].byte_offset == 16 * j,
        decreases 4 - i,
    {
        cols.push(MatrixColumn { location: base_location + i, byte_offset: (i as i32) * 16 });
        i = i + 1;
    }
    cols
}

/// Everything the vertex-array builder computes: which attribute slots to
/// enable, in order; how many bytes each upload is; the component count of
/// each pointer; and the counts the finished object reports.
pub struct VaoPlan {
    /// The slots enabled, in the order the builder enables them: texture
    /// coordinate, position, normal, then the four matrix columns.
    pub enabled_attribs: Vec<u32>,
    pub tex_coord_bytes: usize,
    pub position_bytes: usize,
    pub normal_bytes: usize,
    pub index_bytes: usize,
    /// How many indices the object draws with.
    pub num_index: usize,
    /// How many vertices the object holds.
    pub num_vertex: usize,
}

/// Lay out a vertex array over `n_tex` texture coordinates, `n_pos`
/// positions, `n_norm` normals and `n_idx` indices, for a program whose
/// attributes sit at the four given locations.
pub fn vao_plan(
    texcoord: u32,
    position: u32,
    normal: u32,
    mmatrix: u32,
    n_tex: usize,
    n_pos: usize,
    n_norm: usize,
    n_idx: usize,
) -> (p: VaoPlan)
    requires
        mmatrix + 3 <= u32::MAX,
        n_tex * 8 <= usize::MAX,
        n_pos * 12 <= usize::MAX,
        n_norm * 12 <= usize::MAX,
        n_idx * 2 <= usize::MAX,
    ensures
        p.enabled_attribs@ == seq![
            texcoord,
            position,
            normal,
            mmatrix,
            (mmatrix + 1) as u32,
            (mmatrix + 2) as u32,
            (mmatrix + 3) as u32,
        ],
        p.tex_coord_bytes == n_tex * spec_element_bytes(AttribKind::TexCoord2),
        p.position_bytes == n_pos * spec_element_bytes(AttribKind::Position3),
        p.normal_bytes == n_norm * spec_element_bytes(AttribKind::Normal3),
        p.index_bytes == n_idx * spec_element_bytes(AttribKind::Index16),
        p.num_index == n_idx,
        p.num_vertex == n_pos,
{
    let mut enabled: Vec<u32> = Vec::new();
    enabled.push(texcoord);
    enabled.push(position);
    enabled.push(normal);
    enabled.push(mmatrix);
    enabled.push(mmatrix + 1);
    enabled.push(mmatrix + 2);
    enabled.push(mmatrix + 3);
    proof {
        assert(enabled@ =~= seq![
            texcoord,
            position,
            normal,
            mmatrix,
            (mmatrix + 1) as u32,
            (mmatrix + 2) as u32,
            (mmatrix + 3) as u32,
        ]);
    }
    VaoPlan {
        enabled_attribs: enabled,
        tex_coord_bytes: AttribKind::TexCoord2.byte_len(n_tex),
        position_bytes: AttribKind::Position3.byte_len(n_pos),
        normal_bytes: AttribKind::Normal3.byte_len(n_norm),
        index_bytes: AttribKind::Index16.byte_len(n_idx),
        num_index: n_idx,
        num_vertex: n_pos,
    }
}

/// A symbolic texture parameter name, as the sampler setup sets them.
#[derive(Debug, Clone, Copy, PartialEq, Eq, Structural)]
pub enum TexParamName {
    MinFilter,
    MagFilter,
    WrapS,
    WrapT,
}

/// A symbolic texture parameter value.
#[derive(Debug, Clone, Copy, PartialEq, Eq, Structural)]
pub enum TexParamValue {
    Linear,
    ClampToEdge,
}

/// One texture parameter setting.
#[derive(Debug, Clone, Copy, PartialEq)]
pub struct TexParam {
    pub name: TexParamName,
    pub value: TexParamValue,
}

/// The sampler settings applied after every texture upload: linear
/// filtering both ways, edges clamped on both axes, in this order.
pub fn texture_sampling_params() -> (ps: Vec<TexParam>)
    ensures
        ps@ == seq![
            (TexParam { name: TexParamName::MinFilter, value: TexParamValue::Linear }),
            (TexParam { name: TexParamName::MagFilter, value: TexParamValue::Linear }),
            (TexParam { name: TexParamName::WrapS, value: TexParamValue::ClampToEdge }),
            (TexParam { name: TexParamName::WrapT, value: TexParamValue::ClampToEdge }),
        ],
{
    let mut ps: Vec<TexParam> = Vec::new();
    ps.push(TexParam { name: TexParamName::MinFilter, value: TexParamValue::Linear });
    ps.push(TexParam { name: TexParamName::MagFilter, value: TexParamValue::Linear });
    ps.push(TexParam { name: TexParamName::WrapS, value: TexParamValue::ClampToEdge });
    ps.push(TexParam { name: TexParamName::WrapT, value: TexParamValue::ClampToEdge });
    proof {
        assert(ps@ =~= seq![
            (TexParam { name: TexParamName::MinFilter, value: TexParamValue::Linear }),
            (TexParam { name: TexParamName::MagFilter, value: TexParamValue::Linear }),
            (TexParam { name: TexParamName::WrapS, value: TexParamValue::ClampToEdge }),
            (TexParam { name: TexParamName::WrapT, value: TexParamValue::ClampToEdge }),
        ]);
    }
    ps
}

/// The dimensions a texture update stores and reports, taken from the image
/// the caller handed in.
pub fn texture_dims(width: usize, height: usize) -> (r: (i32, i32))
    requires
        width <= 0x7fff_ffff,
        height <= 0x7fff_ffff,
    ensures
        r.0 == width,
        r.1 == height,
{
    (width as i32, height as i32)
}

/// The single blue pixel a fresh texture is filled with, and its 1x1 size.
pub fn initial_texture_pixel() -> (p: Vec<u8>)
    ensures
        p@ == seq![0u8, 0u8, 255u8, 255u8],
{
    let mut p: Vec<u8> = Vec::new();
    p.push(0);
    p.push(0);
    p.push(255);
    p.push(255);
    proof {
        assert(p@ =~= seq![0u8, 0u8, 255u8, 255u8]);
    }
    p
}

} // verus!
