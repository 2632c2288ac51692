//! The one render pipeline: which bind group stands at which slot, how the
//! vertex buffer is read, and the fixed rasterization and depth state.

use vstd::prelude::*;
use crate::binding::{label_text, owned_label};
use crate::mesh::interleaved;
use crate::shader::{Shader, Stage};
use crate::texture::TextureFormat;
use crate::words::{le_image, word_byte};

verus! {

/// The format of one vertex attribute: two or three single-precision
/// values.
#[derive(Clone, Copy, Debug, PartialEq, Eq, Structural)]
pub enum VertexFormat {
    Float2,
    Float3,
}

/// One attribute of a vertex: where the shader receives it, where it lies in
/// the vertex and what it holds.
#[derive(Clone, Copy, Debug, PartialEq, Eq, Structural)]
pub struct VertexAttribute {
    pub shader_location: u32,
    pub offset: u64,
    pub format: VertexFormat,
}

/// How one vertex buffer is read: vertex by vertex, `stride` bytes apart.
#[derive(Clone, Debug, PartialEq, Eq)]
pub struct VertexBufferLayout {
    pub stride: u64,
    pub attributes: Vec<VertexAttribute>,
}

/// A bind group of the scene, named by its role.
#[derive(Clone, Copy, Debug, PartialEq, Eq, Structural)]
pub enum GroupRef {
    /// The view-projection uniform.
    Camera,
    /// The diffuse texture of a material, with its sampler.
    DiffuseTexture { material: usize },
    /// The shading coefficients of a material.
    Material { material: usize },
    /// The light uniform.
    Light,
}

/// Which side of a triangle is its front.
#[derive(Clone, Copy, Debug, PartialEq, Eq, Structural)]
pub enum FrontFace {
    Ccw,
    Cw,
}

/// Which triangles are dropped before they are drawn.
#[derive(Clone, Copy, Debug, PartialEq, Eq, Structural)]
pub enum CullMode {
    Neither,
    Front,
    Back,
}

/// How vertices form primitives.
#[derive(Clone, Copy, Debug, PartialEq, Eq, Structural)]
pub enum PrimitiveTopology {
    PointList,
    LineList,
    LineStrip,
    TriangleList,
    TriangleStrip,
}

/// When a fragment passes the depth test.
#[derive(Clone, Copy, Debug, PartialEq, Eq, Structural)]
pub enum CompareFunction {
    Never,
    Less,
    Equal,
    LessEqual,
    Greater,
    NotEqual,
    GreaterEqual,
    Always,
}

/// The width of an index.
#[derive(Clone, Copy, Debug, PartialEq, Eq, Structural)]
pub enum IndexFormat {
    Uint16,
    Uint32,
}

/// How a fragment is combined with what the target holds.
#[derive(Clone, Copy, Debug, PartialEq, Eq, Structural)]
pub enum Blend {
    /// The fragment replaces it.
    Replace,
}

/// The rasterization state.  The bias values are single-precision bit
/// patterns.
#[derive(Clone, Copy, Debug, PartialEq, Eq, Structural)]
pub struct RasterizationState {
    pub front_face: FrontFace,
    pub cull_mode: CullMode,
    pub depth_bias: i32,
    pub depth_bias_slope_scale: u32,
    pub depth_bias_clamp: u32,
    pub clamp_depth: bool,
}

/// The state of the one color target.
#[derive(Clone, Copy, Debug, PartialEq, Eq, Structural)]
pub struct ColorState {
    pub format: TextureFormat,
    pub color_blend: Blend,
    pub alpha_blend: Blend,
    /// Every channel is written.
    pub write_all: bool,
}

/// The depth test.  No stencil test is made.
#[derive(Clone, Copy, Debug, PartialEq, Eq, Structural)]
pub struct DepthStencilState {
    pub format: TextureFormat,
    pub depth_write_enabled: bool,
    pub depth_compare: CompareFunction,
}

/// The state of the pipeline that holds no text and no list.
#[derive(Clone, Copy, Debug, PartialEq, Eq, Structural)]
pub struct FixedState {
    pub rasterization_state: RasterizationState,
    pub color_state: ColorState,
    pub primitive_topology: PrimitiveTopology,
    pub depth_stencil_state: DepthStencilState,
    pub index_format: IndexFormat,
    pub sample_count: u32,
    pub sample_mask: u32,
    pub alpha_to_coverage_enabled: bool,
}

/// The render pipeline.
#[derive(Clone, Debug, PartialEq, Eq)]
pub struct RenderPipeline {
    pub label: Option<String>,
    pub layout_label: Option<String>,
    /// The bind group whose layout stands at each slot, slot 0 first.
    pub bind_group_layouts: Vec<GroupRef>,
    pub vertex_stage: Shader,
    pub fragment_stage: Shader,
    pub vertex_buffer: VertexBufferLayout,
    pub state: FixedState,
}

impl VertexFormat {
    /// The size of the attribute in bytes.
    pub open spec fn spec_size(self) -> nat {
        match self {
            VertexFormat::Float2 => 8,
            VertexFormat::Float3 => 12,
        }
    }

    pub fn size(self) -> (n: u64)
        ensures
            n == self.spec_size(),
    {
        match self {
            VertexFormat::Float2 => 8,
            VertexFormat::Float3 => 12,
        }
    }
}

/// The size in bytes of attributes of these formats, one after another.
pub open spec fn formats_size(formats: Seq<VertexFormat>) -> nat
    decreases formats.len(),
{
    if formats.len() == 0 {
        0
    } else {
        formats_size(formats.drop_last()) + formats.last().spec_size()
    }
}

/// Attribute `i` of a vertex whose attributes follow one another without a
/// gap: it goes to shader location `i`.
pub open spec fn attribute_at(formats: Seq<VertexFormat>, i: int) -> VertexAttribute {
    VertexAttribute {
        shader_location: i as u32,
        offset: formats_size(formats.take(i)) as u64,
        format: formats[i],
    }
}

/// The attributes of a vertex of these formats.
pub open spec fn attribute_array(formats: Seq<VertexFormat>) -> Seq<VertexAttribute> {
    Seq::new(formats.len(), |i: int| attribute_at(formats, i))
}

/// The formats of a vertex of a mesh: position, normal, texture
/// coordinates.
pub open spec fn mesh_formats() -> Seq<VertexFormat> {
    seq![VertexFormat::Float3, VertexFormat::Float3, VertexFormat::Float2]
}

/// The slots of the pipeline for a mesh that is drawn with the given
/// material: camera, diffuse texture, material, light.
pub open spec fn scene_slots(material: usize) -> Seq<GroupRef> {
    seq![
        GroupRef::Camera,
        GroupRef::DiffuseTexture { material },
        GroupRef::Material { material },
        GroupRef::Light,
    ]
}

/// The fixed state for a surface of the given format: triangle lists, back
/// faces culled, counter-clockwise fronts, a depth test that passes what is
/// nearer, one color target that is overwritten, 32-bit indices, one sample.
pub open spec fn fixed_state(format: TextureFormat) -> FixedState {
    FixedState {
        rasterization_state: RasterizationState {
            front_face: FrontFace::Ccw,
            cull_mode: CullMode::Back,
            depth_bias: 0,
            depth_bias_slope_scale: 0,
            depth_bias_clamp: 0,
            clamp_depth: false,
        },
        color_state: ColorState {
            format,
            color_blend: Blend::Replace,
            alpha_blend: Blend::Replace,
            write_all: true,
        },
        primitive_topology: PrimitiveTopology::TriangleList,
        depth_stencil_state: DepthStencilState {
            format: TextureFormat::Depth32Float,
            depth_write_enabled: true,
            depth_compare: CompareFunction::Less,
        },
        index_format: IndexFormat::Uint32,
        sample_count: 1,
        sample_mask: 0xffff_ffff,
        alpha_to_coverage_enabled: false,
    }
}

/// What one more format adds to the size.
pub proof fn lemma_push_format(formats: Seq<VertexFormat>, format: VertexFormat)
    ensures
        formats_size(formats.push(format)) == formats_size(formats) + format.spec_size(),
        formats_size(formats) <= 12 * formats.len(),
{
    assert(formats.push(format).drop_last() =~= formats);
    lemma_formats_size_bound(formats);
}

/// No attribute is larger than twelve bytes.
pub proof fn lemma_formats_size_bound(formats: Seq<VertexFormat>)
    ensures
        formats_size(formats) <= 12 * formats.len(),
    decreases formats.len(),
{
    if formats.len() > 0 {
        lemma_formats_size_bound(formats.drop_last());
    }
}

/// The attributes of a mesh vertex lie at offsets 0, 12 and 24, and the
/// vertex is 32 bytes long.
pub proof fn lemma_mesh_attributes()
    ensures
        formats_size(mesh_formats()) == 32,
        attribute_array(mesh_formats()) == seq![
            VertexAttribute { shader_location: 0, offset: 0, format: VertexFormat::Float3 },
            VertexAttribute { shader_location: 1, offset: 12, format: VertexFormat::Float3 },
            VertexAttribute { shader_location: 2, offset: 24, format: VertexFormat::Float2 },
        ],
{
    let f0 = Seq::<VertexFormat>::empty();
    let f1 = f0.push(VertexFormat::Float3);
    let f2 = f1.push(VertexFormat::Float3);
    let f3 = f2.push(VertexFormat::Float2);
    lemma_push_format(f0, VertexFormat::Float3);
    lemma_push_format(f1, VertexFormat::Float3);
    lemma_push_format(f2, VertexFormat::Float2);
    assert(f3 =~= mesh_formats());
    assert(f3.take(0) =~= f0);
    assert(f3.take(1) =~= f1);
    assert(f3.take(2) =~= f2);
    assert(attribute_array(f3) =~= seq![
        VertexAttribute { shader_location: 0, offset: 0, format: VertexFormat::Float3 },
        VertexAttribute { shader_location: 1, offset: 12, format: VertexFormat::Float3 },
        VertexAttribute { shader_location: 2, offset: 24, format: VertexFormat::Float2 },
    ]);
}

/// The pipeline reads each attribute of a vertex where the mesh put it:
/// component `c` of the position, of the normal and of the texture
/// coordinates of vertex `v` lies in the vertex buffer at the vertex's
/// stride times `v`, plus the attribute's offset, plus four bytes for each
/// component before it.
pub proof fn lemma_attributes_address_streams(
    positions: Seq<u32>,
    normals: Seq<u32>,
    texcoords: Seq<u32>,
    v: int,
    c: int,
    k: int,
)
    requires
        positions.len() % 3 == 0,
        normals.len() == positions.len(),
        texcoords.len() == 2 * (positions.len() / 3),
        0 <= v < positions.len() / 3,
        0 <= c < 3,
        0 <= k < 4,
    ensures
        ({
            let bytes = le_image(interleaved(positions, normals, texcoords));
            let attributes = attribute_array(mesh_formats());
            let stride = formats_size(mesh_formats());
            &&& bytes.len() == stride * (positions.len() / 3)
            &&& bytes[stride * v + attributes[0].offset + 4 * c + k] == word_byte(
                positions[3 * v + c],
                k,
            )
            &&& bytes[stride * v + attributes[1].offset + 4 * c + k] == word_byte(
                normals[3 * v + c],
                k,
            )
            &&& c < 2 ==> bytes[stride * v + attributes[2].offset + 4 * c + k] == word_byte(
                texcoords[2 * v + c],
                k,
            )
        }),
{
    lemma_mesh_attributes();
    let words = interleaved(positions, normals, texcoords);
    let bytes = le_image(words);
    let at = 8 * v;
    assert((32 * v + 4 * c + k) / 4 == at + c);
    assert((32 * v + 4 * c + k) % 4 == k);
    assert((32 * v + 12 + 4 * c + k) / 4 == at + 3 + c);
    assert((32 * v + 12 + 4 * c + k) % 4 == k);
    assert((32 * v + 24 + 4 * c + k) / 4 == at + 6 + c);
    assert((32 * v + 24 + 4 * c + k) % 4 == k);
    assert((at + c) / 8 == v && (at + c) % 8 == c);
    assert((at + 3 + c) / 8 == v && (at + 3 + c) % 8 == 3 + c);
    if c < 2 {
        assert((at + 6 + c) / 8 == v && (at + 6 + c) % 8 == 6 + c);
    }
}

impl VertexBufferLayout {
    /// The layout of a buffer whose vertices hold attributes of the given
    /// formats without a gap, for consecutive shader locations from 0.
    pub fn packed(formats: &[VertexFormat]) -> (layout: VertexBufferLayout)
        requires
            formats@.len() <= u32::MAX,
        ensures
            layout.stride == formats_size(formats@),
            layout.attributes@ == attribute_array(formats@),
    {
        let mut attributes: Vec<VertexAttribute> = Vec::new();
        let mut offset: u64 = 0;
        let mut i: usize = 0;
        while i < formats.len()
            invariant
                i <= formats.len(),
                formats@.len() == formats.len() <= u32::MAX,
                offset == formats_size(formats@.take(i as int)),
                offset <= 12 * i,
                attributes@.len() == i,
                forall|j: int|
                    0 <= j < i ==> #[trigger] attributes@[j] == attribute_at(formats@, j),
            decreases formats.len() - i,
        {
            let format: VertexFormat = formats[i];
            attributes.push(VertexAttribute { shader_location: i as u32, offset, format });
            proof {
                lemma_push_format(formats@.take(i as int), format);
                assert(formats@.take(i as int).push(format) =~= formats@.take(i + 1));
            }
            offset = offset + format.size();
            i += 1;
        }
        proof {
            assert(formats@.take(formats.len() as int) =~= formats@);
            assert(attributes@ =~= attribute_array(formats@));
        }
        VertexBufferLayout { stride: offset, attributes }
    }
}

impl RenderPipeline {
    /// Each of the two stages has a sound program of its own.
    pub open spec fn programs_sound(&self) -> bool {
        &&& self.vertex_stage.wf()
        &&& self.vertex_stage.stage == Stage::Vertex
        &&& self.fragment_stage.wf()
        &&& self.fragment_stage.stage == Stage::Fragment
    }

    /// The pipeline is the fixed one for a surface of the given format and a
    /// mesh that is drawn with the given material, whatever its programs.
    pub open spec fn is_fixed(&self, format: TextureFormat, material: usize) -> bool {
        &&& label_text(self.label) == Some("render_pipeline"@)
        &&& label_text(self.layout_label) == Some("render_pipeline_layout"@)
        &&& self.bind_group_layouts@ == scene_slots(material)
        &&& self.vertex_buffer.stride == 32
        &&& self.vertex_buffer.attributes@ == attribute_array(mesh_formats())
        &&& self.state == fixed_state(format)
    }

    /// The fixed pipeline with the given programs.
    pub fn fixed(
        format: TextureFormat,
        material: usize,
        vertex_stage: Shader,
        fragment_stage: Shader,
    ) -> (pipeline: RenderPipeline)
        ensures
            pipeline.is_fixed(format, material),
            pipeline.vertex_stage == vertex_stage,
            pipeline.fragment_stage == fragment_stage,
    {
        let mut slots: Vec<GroupRef> = Vec::new();
        slots.push(GroupRef::Camera);
        slots.push(GroupRef::DiffuseTexture { material });
        slots.push(GroupRef::Material { material });
        slots.push(GroupRef::Light);
        assert(slots@ =~= scene_slots(material));
        let mut formats: Vec<VertexFormat> = Vec::new();
        formats.push(VertexFormat::Float3);
        formats.push(VertexFormat::Float3);
        formats.push(VertexFormat::Float2);
        proof {
            assert(formats@ =~= mesh_formats());
            lemma_mesh_attributes();
        }
        RenderPipeline {
            label: owned_label(Some("render_pipeline")),
            layout_label: owned_label(Some("render_pipeline_layout")),
            bind_group_layouts: slots,
            vertex_stage,
            fragment_stage,
            vertex_buffer: VertexBufferLayout::packed(formats.as_slice()),
            state: FixedState {
                rasterization_state: RasterizationState {
                    front_face: FrontFace::Ccw,
                    cull_mode: CullMode::Back,
                    depth_bias: 0,
                    depth_bias_slope_scale: 0,
                    depth_bias_clamp: 0,
                    clamp_depth: false,
                },
                color_state: ColorState {
                    format,
                    color_blend: Blend::Replace,
                    alpha_blend: Blend::Replace,
                    write_all: true,
                },
                primitive_topology: PrimitiveTopology::TriangleList,
                depth_stencil_state: DepthStencilState {
                    format: TextureFormat::Depth32Float,
                    depth_write_enabled: true,
                    depth_compare: CompareFunction::Less,
                },
                index_format: IndexFormat::Uint32,
                sample_count: 1,
                sample_mask: 0xffff_ffff,
                alpha_to_coverage_enabled: false,
            },
        }
    }
}

} // verus!
