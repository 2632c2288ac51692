//! The renderer: everything that is created at startup, what a resize
//! replaces, and the commands of a frame.

use vstd::prelude::*;
use vstd::pervasive::unreached;
use crate::binding::{
    label_text, owned_label, spec_uniform_usage, uniform_entries, BindGroup, BindGroupLayout,
    Buffer, LayoutEntry, ShaderStages,
};
use crate::bits::{DOUBLE_FIFTH, DOUBLE_ONE, DOUBLE_TENTH, DOUBLE_THREE_TENTHS, ONE};
use crate::camera::Camera;
use crate::event::WindowEvent;
use crate::fault::{first_fault, lemma_first_fault_found, lemma_first_fault_step};
use crate::material::{fragment_only, Material, MaterialError, MaterialSource};
use crate::mesh::{indices_in_range, MeshError, Model, ModelData};
use crate::pipeline::{GroupRef, RenderPipeline};
use crate::shader::{spirv_fault, Shader, ShaderFault, Stage};
use crate::surface::{Size, SurfaceConfig};
use crate::texture::{texture_entries, DepthTexture, TextureError};
use crate::uniform::{Light, Uniforms};
use crate::words::le_image;

verus! {

/// Why no frame could be acquired from the surface.
#[derive(Clone, Copy, Debug, PartialEq, Eq, Structural)]
pub enum SurfaceError {
    /// No frame became free in time.
    Timeout,
    /// The surface has changed and must be configured anew.
    Outdated,
    /// The surface was lost and must be configured anew.
    Lost,
    /// The device is out of memory.
    OutOfMemory,
}

/// Why the renderer could not be started.
#[allow(inconsistent_fields)]
#[derive(Clone, Copy, Debug, PartialEq, Eq, Structural)]
pub enum StartupError {
    /// The surface has no extent.
    ZeroExtent,
    /// The geometry of a mesh is unsound.
    Mesh { index: usize, error: MeshError },
    /// The diffuse image of a material cannot become a texture.
    Material { index: usize, error: TextureError },
    /// There is no mesh to draw.
    NoModel,
    /// The mesh to draw names a material that was not loaded.
    MaterialIndex,
    /// The program for a stage is no SPIR-V binary.
    Shader { stage: Stage, fault: ShaderFault },
}

/// One command of a render pass.
#[derive(Clone, Copy, Debug, PartialEq, Eq, Structural)]
pub enum Command {
    SetPipeline,
    SetBindGroup { slot: u32, group: GroupRef },
    /// Binds the whole vertex buffer of a model.
    SetVertexBuffer { slot: u32, model: usize },
    /// Binds the whole index buffer of a model.
    SetIndexBuffer { model: usize },
    /// Draws the indices from `first_index` up to `end_index`, once for each
    /// instance from `first_instance` up to `end_instance`.
    DrawIndexed {
        first_index: u32,
        end_index: u32,
        base_vertex: i32,
        first_instance: u32,
        end_instance: u32,
    },
}

/// One render pass: what the attachments are cleared to, and the commands.
#[derive(Clone, Debug, PartialEq, Eq)]
pub struct RenderPass {
    /// Red, green, blue and alpha as double-precision bit patterns.
    pub clear_color: [u64; 4],
    pub color_store: bool,
    /// The depth that every pixel starts from, a single-precision bit
    /// pattern.
    pub clear_depth: u32,
    pub depth_store: bool,
    /// The generation of the depth attachment that the pass draws into.
    pub depth_generation: u64,
    pub commands: Vec<Command>,
}

/// The work of one frame.
#[derive(Clone, Debug, PartialEq, Eq)]
pub struct Frame {
    pub encoder_label: String,
    pub pass: RenderPass,
}

/// The renderer.
#[derive(Clone, Debug, PartialEq, Eq)]
pub struct State {
    pub sc_desc: SurfaceConfig,
    pub size: Size,
    /// Counts the configurations of the surface.
    pub generation: u64,
    pub camera: Camera,
    pub uniforms: Uniforms,
    /// The camera has changed since the uniforms were taken from it.
    pub stale: bool,
    pub render_pipeline: RenderPipeline,
    pub uniform_bind_group_layout: BindGroupLayout,
    pub uniform_bind_group: BindGroup,
    pub light: Light,
    pub light_bind_group_layout: BindGroupLayout,
    pub light_bind_group: BindGroup,
    pub models: Vec<Model>,
    pub materials: Vec<Material>,
    pub depth_texture: DepthTexture,
}

/// The vertex stage alone.
pub open spec fn vertex_only() -> ShaderStages {
    ShaderStages { vertex: true, fragment: false }
}

/// The vertex and the fragment stage.
pub open spec fn both_stages() -> ShaderStages {
    ShaderStages { vertex: true, fragment: true }
}

/// The background: (0.1, 0.2, 0.3), opaque.
pub open spec fn background() -> Seq<u64> {
    seq![DOUBLE_TENTH, DOUBLE_FIFTH, DOUBLE_THREE_TENTHS, DOUBLE_ONE]
}

/// What the shaders expect at each of the four slots: the view-projection
/// uniform for the vertex stage, the diffuse image with its sampler for the
/// fragment stage, the material uniform for the fragment stage, and the
/// light uniform for both.
pub open spec fn slot_entries(slot: int) -> Seq<LayoutEntry> {
    if slot == 0 {
        uniform_entries(vertex_only())
    } else if slot == 1 {
        texture_entries()
    } else if slot == 2 {
        uniform_entries(fragment_only())
    } else {
        uniform_entries(both_stages())
    }
}

/// What the check of each mesh finds.
pub open spec fn model_faults(models: Seq<ModelData>) -> Seq<Option<MeshError>> {
    Seq::new(models.len(), |i: int| models[i].mesh.spec_fault())
}

/// What the check of each diffuse image finds.
pub open spec fn image_faults(materials: Seq<MaterialSource>) -> Seq<Option<TextureError>> {
    Seq::new(materials.len(), |i: int| materials[i].image.spec_fault())
}

/// What keeps the renderer from starting, if anything: a surface without
/// extent, else the first unsound mesh, else the first unusable image, else
/// the lack of a mesh, else a material that the first mesh names and that
/// was not loaded, else a vertex program and then a fragment program that is
/// no SPIR-V binary.
pub open spec fn startup_fault(
    size: Size,
    models: Seq<ModelData>,
    materials: Seq<MaterialSource>,
    vertex_shader: Seq<u8>,
    fragment_shader: Seq<u8>,
) -> Option<StartupError> {
    if !size.is_drawable() {
        Some(StartupError::ZeroExtent)
    } else {
        match first_fault(model_faults(models)) {
            Some((index, error)) => Some(StartupError::Mesh { index: index as usize, error }),
            None => match first_fault(image_faults(materials)) {
                Some((index, error)) => Some(
                    StartupError::Material { index: index as usize, error },
                ),
                None => if models.len() == 0 {
                    Some(StartupError::NoModel)
                } else if models[0].spec_material() >= materials.len() {
                    Some(StartupError::MaterialIndex)
                } else {
                    match spirv_fault(vertex_shader) {
                        Some(fault) => Some(StartupError::Shader { stage: Stage::Vertex, fault }),
                        None => match spirv_fault(fragment_shader) {
                            Some(fault) => Some(
                                StartupError::Shader { stage: Stage::Fragment, fault },
                            ),
                            None => None,
                        },
                    }
                },
            },
        }
    }
}

/// The commands of a frame that draws `num_indices` indices of model 0 with
/// the given material.
pub open spec fn frame_commands(material: usize, num_indices: u32) -> Seq<Command> {
    seq![
        Command::SetPipeline,
        Command::SetBindGroup { slot: 0, group: GroupRef::Camera },
        Command::SetBindGroup { slot: 1, group: GroupRef::DiffuseTexture { material } },
        Command::SetBindGroup { slot: 2, group: GroupRef::Material { material } },
        Command::SetBindGroup { slot: 3, group: GroupRef::Light },
        Command::SetVertexBuffer { slot: 0, model: 0 },
        Command::SetIndexBuffer { model: 0 },
        Command::DrawIndexed {
            first_index: 0,
            end_index: num_indices,
            base_vertex: 0,
            first_instance: 0,
            end_instance: 1,
        },
    ]
}

/// Puts every mesh on the device, in order, up to the first unsound one.
fn build_models(models: &Vec<ModelData>) -> (r: Result<Vec<Model>, (usize, MeshError)>)
    ensures
        match r {
            Ok(built) => {
                &&& first_fault(model_faults(models@)) is None
                &&& built@.len() == models@.len()
                &&& forall|i: int|
                    0 <= i < models@.len() ==> (#[trigger] built@[i]).made_from(&models@[i])
            },
            Err((index, error)) => first_fault(model_faults(models@)) == Some(
                (index as int, error),
            ),
        },
{
    let ghost faults = model_faults(models@);
    let mut built: Vec<Model> = Vec::new();
    let mut i: usize = 0;
    while i < models.len()
        invariant
            i <= models.len(),
            faults == model_faults(models@),
            first_fault(faults.take(i as int)) is None,
            built@.len() == i,
            forall|j: int| 0 <= j < i ==> (#[trigger] built@[j]).made_from(&models@[j]),
        decreases models.len() - i,
    {
        match Model::new(&models[i]) {
            Ok(model) => {
                proof {
                    lemma_first_fault_step(faults, i as int);
                }
                built.push(model);
            },
            Err(error) => {
                proof {
                    lemma_first_fault_found(faults, i as int);
                }
                return Err((i, error));
            },
        }
        i += 1;
    }
    proof {
        assert(faults.take(i as int) =~= faults);
    }
    Ok(built)
}

/// Puts every material on the device, in order, up to the first whose image
/// cannot become a texture.
fn build_materials(materials: &Vec<MaterialSource>) -> (r: Result<
    Vec<Material>,
    (usize, TextureError),
>)
    ensures
        match r {
            Ok(built) => {
                &&& first_fault(image_faults(materials@)) is None
                &&& built@.len() == materials@.len()
                &&& forall|i: int|
                    0 <= i < materials@.len() ==> (#[trigger] built@[i]).made_from(
                        &materials@[i].data,
                        &materials@[i].image,
                    )
            },
            Err((index, error)) => first_fault(image_faults(materials@)) == Some(
                (index as int, error),
            ),
        },
{
    let ghost faults = image_faults(materials@);
    let mut built: Vec<Material> = Vec::new();
    let mut i: usize = 0;
    while i < materials.len()
        invariant
            i <= materials.len(),
            faults == image_faults(materials@),
            first_fault(faults.take(i as int)) is None,
            built@.len() == i,
            forall|j: int|
                0 <= j < i ==> (#[trigger] built@[j]).made_from(
                    &materials@[j].data,
                    &materials@[j].image,
                ),
        decreases materials.len() - i,
    {
        match Material::new(&materials[i].data, &materials[i].image) {
            Ok(material) => {
                proof {
                    lemma_first_fault_step(faults, i as int);
                }
                built.push(material);
            },
            Err(MaterialError::Texture(error)) => {
                proof {
                    lemma_first_fault_found(faults, i as int);
                }
                return Err((i, error));
            },
        }
        i += 1;
    }
    proof {
        assert(faults.take(i as int) =~= faults);
    }
    Ok(built)
}

impl Frame {
    /// The frame draws `num_indices` indices with the given material into a
    /// depth attachment of the given generation, over the cleared
    /// background.
    pub open spec fn draws(&self, material: usize, num_indices: u32, generation: u64) -> bool {
        &&& self.encoder_label@ == "Render Encoder"@
        &&& self.pass.clear_color@ == background()
        &&& self.pass.color_store
        &&& self.pass.clear_depth == ONE
        &&& self.pass.depth_store
        &&& self.pass.depth_generation == generation
        &&& self.pass.commands@ == frame_commands(material, num_indices)
    }
}

impl State {
    /// The generation after this one.
    pub open spec fn next_generation(&self) -> u64 {
        if self.generation == u64::MAX {
            0
        } else {
            (self.generation + 1) as u64
        }
    }

    /// The number of the material that the frames are drawn with.
    pub open spec fn material(&self) -> usize {
        self.models@[0].mesh.material
    }

    /// The surface, the camera and the depth attachment agree on one size
    /// and one generation; there is a mesh to draw and the material it
    /// names; every mesh and every material is sound; the pipeline is the
    /// fixed one and its programs are sound; and each uniform bind group fits
    /// its layout and holds the image of its block.
    pub open spec fn wf(&self) -> bool {
        &&& self.size.is_drawable()
        &&& self.sc_desc == SurfaceConfig::spec_for_size(self.size)
        &&& self.camera.wf()
        &&& self.camera.aspect_width == self.size.width
        &&& self.camera.aspect_height == self.size.height
        &&& self.depth_texture.matches(self.sc_desc)
        &&& self.depth_texture.generation == self.generation
        &&& self.models@.len() > 0
        &&& self.material() < self.materials@.len()
        &&& forall|i: int| 0 <= i < self.models@.len() ==> (#[trigger] self.models@[i]).mesh.wf()
        &&& forall|i: int| 0 <= i < self.materials@.len() ==> (#[trigger] self.materials@[i]).wf()
        &&& self.render_pipeline.is_fixed(self.sc_desc.format, self.material())
        &&& self.render_pipeline.programs_sound()
        &&& self.uniform_bind_group_layout.entries@ == uniform_entries(vertex_only())
        &&& self.uniform_bind_group.fits(&self.uniform_bind_group_layout)
        &&& self.uniform_bind_group.buffer.contents@ == le_image(self.uniforms.values())
        &&& self.light_bind_group_layout.entries@ == uniform_entries(both_stages())
        &&& self.light_bind_group.fits(&self.light_bind_group_layout)
        &&& self.light_bind_group.buffer.contents@ == le_image(self.light.image())
    }

    /// The layout of a bind group of the scene, if the group exists.
    pub open spec fn spec_bind_group_layout(&self, group: GroupRef) -> Option<BindGroupLayout> {
        match group {
            GroupRef::Camera => Some(self.uniform_bind_group_layout),
            GroupRef::Light => Some(self.light_bind_group_layout),
            GroupRef::DiffuseTexture { material } => if material < self.materials@.len() {
                Some(self.materials@[material as int].diffuse_texture.bind_group_layout)
            } else {
                None
            },
            GroupRef::Material { material } => if material < self.materials@.len() {
                Some(self.materials@[material as int].bind_group_layout)
            } else {
                None
            },
        }
    }

    /// The layout of a bind group of the scene, if the group exists.
    pub fn bind_group_layout(&self, group: GroupRef) -> (layout: Option<&BindGroupLayout>)
        ensures
            match layout {
                Some(l) => self.spec_bind_group_layout(group) == Some(*l),
                None => self.spec_bind_group_layout(group) is None,
            },
    {
        match group {
            GroupRef::Camera => Some(&self.uniform_bind_group_layout),
            GroupRef::Light => Some(&self.light_bind_group_layout),
            GroupRef::DiffuseTexture { material } => if material < self.materials.len() {
                Some(&self.materials[material].diffuse_texture.bind_group_layout)
            } else {
                None
            },
            GroupRef::Material { material } => if material < self.materials.len() {
                Some(&self.materials[material].bind_group_layout)
            } else {
                None
            },
        }
    }

    /// The renderer is the one started for a surface of this size from what
    /// the loader returned, from the two shader programs and from the
    /// view-projection matrix of the fixed camera.
    pub open spec fn started_from(
        &self,
        size: Size,
        models: Seq<ModelData>,
        materials: Seq<MaterialSource>,
        vertex_shader: Seq<u8>,
        fragment_shader: Seq<u8>,
        view_proj: [[u32; 4]; 4],
    ) -> bool {
        &&& self.wf()
        &&& self.render_pipeline.vertex_stage.code@ == vertex_shader
        &&& self.render_pipeline.fragment_stage.code@ == fragment_shader
        &&& self.size == size
        &&& self.generation == 0
        &&& self.camera.is_fixed(size.width, size.height)
        &&& self.uniforms.view_proj == view_proj
        &&& !self.stale
        &&& self.models@.len() == models.len()
        &&& forall|i: int|
            0 <= i < models.len() ==> (#[trigger] self.models@[i]).made_from(&models[i])
        &&& self.materials@.len() == materials.len()
        &&& forall|i: int|
            0 <= i < materials.len() ==> (#[trigger] self.materials@[i]).made_from(
                &materials[i].data,
                &materials[i].image,
            )
        &&& label_text(self.uniform_bind_group_layout.label) == Some(
            "uniform_bind_group_layout"@,
        )
        &&& label_text(self.uniform_bind_group.label) == Some("uniform_bind_group"@)
        &&& label_text(self.uniform_bind_group.buffer.label) == Some("uniform_buffer"@)
        &&& self.uniform_bind_group.buffer.usage == spec_uniform_usage()
        &&& self.light_bind_group_layout.label is None
        &&& self.light_bind_group.label is None
        &&& label_text(self.light_bind_group.buffer.label) == Some("Light VB"@)
        &&& self.light_bind_group.buffer.usage == spec_uniform_usage()
        &&& self.light.position@ == Light::fixed_position()
        &&& self.light.color@ == Light::fixed_color()
        &&& label_text(self.depth_texture.label) == Some("depth_texture"@)
    }

    /// Starts the renderer for a surface of the given size, with the meshes
    /// and materials that the loader returned, the binaries of the vertex and
    /// of the fragment program, and the view-projection matrix of the fixed
    /// camera for that size.
    pub fn new(
        size: Size,
        models: Vec<ModelData>,
        materials: Vec<MaterialSource>,
        vertex_shader: Vec<u8>,
        fragment_shader: Vec<u8>,
        view_proj: [[u32; 4]; 4],
    ) -> (r: Result<State, StartupError>)
        ensures
            r is Ok <==> startup_fault(size, models@, materials@, vertex_shader@, fragment_shader@)
                is None,
            r matches Err(e) ==> startup_fault(
                size,
                models@,
                materials@,
                vertex_shader@,
                fragment_shader@,
            ) == Some(e),
            r matches Ok(state) ==> state.started_from(
                size,
                models@,
                materials@,
                vertex_shader@,
                fragment_shader@,
                view_proj,
            ),
    {
        if !size.is_drawable() {
            return Err(StartupError::ZeroExtent);
        }
        let sc_desc = SurfaceConfig::for_size(size);
        let built_models = match build_models(&models) {
            Ok(built) => built,
            Err((index, error)) => { return Err(StartupError::Mesh { index, error }); },
        };
        let built_materials = match build_materials(&materials) {
            Ok(built) => built,
            Err((index, error)) => { return Err(StartupError::Material { index, error }); },
        };
        if models.len() == 0 {
            return Err(StartupError::NoModel);
        }
        let material: usize = models[0].material();
        if material >= materials.len() {
            return Err(StartupError::MaterialIndex);
        }
        let vs_module = match Shader::new(Stage::Vertex, vertex_shader) {
            Ok(shader) => shader,
            Err(fault) => { return Err(StartupError::Shader { stage: Stage::Vertex, fault }); },
        };
        let fs_module = match Shader::new(Stage::Fragment, fragment_shader) {
            Ok(shader) => shader,
            Err(fault) => { return Err(StartupError::Shader { stage: Stage::Fragment, fault }); },
        };
        let camera = Camera::fixed(size.width, size.height);

        let uniforms = Uniforms::new(view_proj);
        let uniform_contents = uniforms.bytes();
        let uniform_buffer = Buffer::uniform(owned_label(Some("uniform_buffer")), uniform_contents);
        let uniform_bind_group_layout = BindGroupLayout::uniform(
            owned_label(Some("uniform_bind_group_layout")),
            ShaderStages { vertex: true, fragment: false },
        );
        let uniform_bind_group = BindGroup::whole(
            owned_label(Some("uniform_bind_group")),
            uniform_buffer,
        );

        let light = Light::fixed();
        let light_contents = light.bytes();
        let light_buffer = Buffer::uniform(owned_label(Some("Light VB")), light_contents);
        let light_bind_group_layout = BindGroupLayout::uniform(
            None,
            ShaderStages { vertex: true, fragment: true },
        );
        let light_bind_group = BindGroup::whole(None, light_buffer);

        let depth_texture = match DepthTexture::new(&sc_desc, Some("depth_texture")) {
            Ok(texture) => texture,
            Err(_) => unreached(),
        };
        let render_pipeline = RenderPipeline::fixed(sc_desc.format, material, vs_module, fs_module);
        Ok(
            State {
                sc_desc,
                size,
                generation: 0,
                camera,
                uniforms,
                stale: false,
                render_pipeline,
                uniform_bind_group_layout,
                uniform_bind_group,
                light,
                light_bind_group_layout,
                light_bind_group,
                models: built_models,
                materials: built_materials,
                depth_texture,
            },
        )
    }

    /// The renderer after a resize to `new_size`.  A size without extent
    /// changes nothing.  Any other size becomes the size of the surface, of
    /// the camera's aspect ratio and of the depth attachment, and starts a
    /// new generation; the uniforms are stale if the aspect ratio changed.
    pub open spec fn resized(self, new_size: Size) -> State {
        if !new_size.is_drawable() {
            self
        } else {
            State {
                size: new_size,
                sc_desc: SurfaceConfig {
                    width: new_size.width,
                    height: new_size.height,
                    ..self.sc_desc
                },
                generation: self.next_generation(),
                camera: Camera {
                    aspect_width: new_size.width,
                    aspect_height: new_size.height,
                    ..self.camera
                },
                stale: self.stale || new_size != self.size,
                depth_texture: self.depth_texture.rebuilt(
                    SurfaceConfig {
                        width: new_size.width,
                        height: new_size.height,
                        ..self.sc_desc
                    },
                    self.next_generation(),
                ),
                ..self
            }
        }
    }

    /// The renderer with new uniforms: taken from the given matrix if the
    /// old ones are stale, and otherwise as it is.
    pub open spec fn updated(self, view_proj: [[u32; 4]; 4], contents: Vec<u8>) -> State {
        if !self.stale {
            self
        } else {
            State {
                uniforms: Uniforms { view_proj },
                stale: false,
                uniform_bind_group: BindGroup {
                    buffer: Buffer { contents, ..self.uniform_bind_group.buffer },
                    ..self.uniform_bind_group
                },
                ..self
            }
        }
    }

    /// Resizes the surface.  A size without extent is refused and changes
    /// nothing.  For any other size the host is to configure the surface
    /// anew and to replace the depth attachment; the pipeline, the meshes and
    /// the materials stay.
    pub fn resize(&mut self, new_size: Size) -> (applied: bool)
        ensures
            applied == new_size.is_drawable(),
            *final(self) == old(self).resized(new_size),
            old(self).wf() ==> final(self).wf(),
    {
        if !new_size.is_drawable() {
            return false;
        }
        let generation: u64 = self.generation.wrapping_add(1);
        if self.size.width != new_size.width || self.size.height != new_size.height {
            self.stale = true;
        }
        self.size = new_size;
        self.sc_desc.width = new_size.width;
        self.sc_desc.height = new_size.height;
        self.generation = generation;
        self.camera.set_aspect(new_size.width, new_size.height);
        self.depth_texture.rebuild(&self.sc_desc, generation);
        true
    }

    /// Offers a window event to the renderer.  It consumes none.
    pub fn input(&mut self, event: &WindowEvent) -> (consumed: bool)
        ensures
            !consumed,
            *final(self) == *old(self),
    {
        false
    }

    /// Whether the uniforms have to be taken from the camera again.
    pub fn needs_update(&self) -> (stale: bool)
        ensures
            stale == self.stale,
    {
        self.stale
    }

    /// Brings the uniforms up to date.  While the camera is unchanged this
    /// does nothing.  After a change it takes `view_proj`, the
    /// view-projection matrix of the camera as it is now, and the host is to
    /// write the contents of the uniform buffer to the device again.
    pub fn update(&mut self, view_proj: [[u32; 4]; 4]) -> (written: bool)
        ensures
            written == old(self).stale,
            *final(self) == old(self).updated(
                view_proj,
                final(self).uniform_bind_group.buffer.contents,
            ),
            written ==> final(self).uniform_bind_group.buffer.contents@ == le_image(
                final(self).uniforms.values(),
            ),
            old(self).wf() ==> final(self).wf(),
    {
        if !self.stale {
            return false;
        }
        let uniforms = Uniforms::new(view_proj);
        self.uniform_bind_group.buffer.contents = uniforms.bytes();
        self.uniforms = uniforms;
        self.stale = false;
        true
    }

    /// Records one frame.  `acquired` tells whether the surface handed out
    /// its next image.  If it did not, nothing is recorded and the failure is
    /// passed on.  If it did, the frame clears color and depth, binds the
    /// pipeline, the four bind groups in the order of their slots and the
    /// buffers of the mesh, and draws all its indices once.
    pub fn render(&mut self, acquired: Result<(), SurfaceError>) -> (r: Result<
        Frame,
        SurfaceError,
    >)
        requires
            old(self).models@.len() > 0,
        ensures
            *final(self) == *old(self),
            match acquired {
                Ok(_) => r matches Ok(frame) && frame.draws(
                    old(self).material(),
                    old(self).models@[0].mesh.num_indices,
                    old(self).depth_texture.generation,
                ),
                Err(e) => r == Err::<Frame, SurfaceError>(e),
            },
    {
        match acquired {
            Ok(_) => {},
            Err(e) => { return Err(e); },
        }
        let material: usize = self.models[0].mesh.material;
        let num_indices: u32 = self.models[0].mesh.num_indices;
        let mut commands: Vec<Command> = Vec::new();
        commands.push(Command::SetPipeline);
        commands.push(Command::SetBindGroup { slot: 0, group: GroupRef::Camera });
        commands.push(
            Command::SetBindGroup { slot: 1, group: GroupRef::DiffuseTexture { material } },
        );
        commands.push(Command::SetBindGroup { slot: 2, group: GroupRef::Material { material } });
        commands.push(Command::SetBindGroup { slot: 3, group: GroupRef::Light });
        commands.push(Command::SetVertexBuffer { slot: 0, model: 0 });
        commands.push(Command::SetIndexBuffer { model: 0 });
        commands.push(
            Command::DrawIndexed {
                first_index: 0,
                end_index: num_indices,
                base_vertex: 0,
                first_instance: 0,
                end_instance: 1,
            },
        );
        assert(commands@ =~= frame_commands(material, num_indices));
        let clear_color: [u64; 4] = [DOUBLE_TENTH, DOUBLE_FIFTH, DOUBLE_THREE_TENTHS, DOUBLE_ONE];
        assert(clear_color@ =~= background());
        Ok(
            Frame {
                encoder_label: "Render Encoder".to_owned(),
                pass: RenderPass {
                    clear_color,
                    color_store: true,
                    clear_depth: ONE,
                    depth_store: true,
                    depth_generation: self.depth_texture.generation,
                    commands,
                },
            },
        )
    }
}

/// Resizing to any size and then back to the size before gives the surface
/// configuration, the camera and the size that there were before.
pub proof fn lemma_resize_round_trip(state: State, size: Size)
    requires
        state.wf(),
    ensures
        state.resized(size).resized(state.size).sc_desc == state.sc_desc,
        state.resized(size).resized(state.size).camera == state.camera,
        state.resized(size).resized(state.size).size == state.size,
{
}

/// A resize to a size without extent leaves the renderer as it is, and any
/// resize leaves the pipeline, the meshes, the materials and the bind groups
/// as they are.
pub proof fn lemma_resize_keeps_resources(state: State, size: Size)
    ensures
        !size.is_drawable() ==> state.resized(size) == state,
        state.resized(size).render_pipeline == state.render_pipeline,
        state.resized(size).models == state.models,
        state.resized(size).materials == state.materials,
        state.resized(size).uniform_bind_group == state.uniform_bind_group,
        state.resized(size).light_bind_group == state.light_bind_group,
        state.resized(size).uniforms == state.uniforms,
{
}

/// A frame holds exactly one draw call. It covers every index of the mesh,
/// from the first to the last, once; each index names a vertex of the bound
/// vertex buffer; and the pass draws into the depth attachment of the
/// current generation.
pub proof fn lemma_frame_draws_mesh_once(state: State, frame: Frame)
    requires
        state.wf(),
        frame.draws(
            state.material(),
            state.models@[0].mesh.num_indices,
            state.depth_texture.generation,
        ),
    ensures
        forall|i: int|
            0 <= i < frame.pass.commands@.len() ==> ((#[trigger] frame.pass.commands@[i])
                is DrawIndexed <==> i == 7),
        frame.pass.commands@[7] == (Command::DrawIndexed {
            first_index: 0,
            end_index: state.models@[0].mesh.indices@.len() as u32,
            base_vertex: 0,
            first_instance: 0,
            end_instance: 1,
        }),
        state.models@[0].mesh.indices@.len() <= u32::MAX,
        indices_in_range(state.models@[0].mesh.indices@, state.models@[0].mesh.vertex_count()),
        frame.pass.depth_generation == state.depth_texture.generation,
{
    assert(state.models@[0].mesh.wf());
}

/// A frame binds, at each of the four slots and before it draws, the bind
/// group whose layout the pipeline names at that slot, and each of them
/// exists.
pub proof fn lemma_frame_binds_pipeline_slots(state: State, frame: Frame)
    requires
        state.wf(),
        frame.draws(
            state.material(),
            state.models@[0].mesh.num_indices,
            state.depth_texture.generation,
        ),
    ensures
        state.render_pipeline.bind_group_layouts@.len() == 4,
        forall|slot: int|
            0 <= slot < 4 ==> #[trigger] frame.pass.commands@[1 + slot] == (Command::SetBindGroup {
                slot: slot as u32,
                group: state.render_pipeline.bind_group_layouts@[slot],
            }),
        forall|slot: int|
            0 <= slot < 4 ==> state.spec_bind_group_layout(
                #[trigger] state.render_pipeline.bind_group_layouts@[slot],
            ) is Some,
{
}

/// The bind-group layout at each slot of the pipeline is the one the
/// shaders expect there, and the uniform buffers have the sizes of their
/// blocks: 64 bytes for the view-projection matrix, 52 for the material and
/// 28 for the light.
pub proof fn lemma_slots_follow_shaders(state: State)
    requires
        state.wf(),
    ensures
        forall|slot: int|
            0 <= slot < 4 ==> (state.spec_bind_group_layout(
                #[trigger] state.render_pipeline.bind_group_layouts@[slot],
            ) matches Some(layout) && layout.entries@ == slot_entries(slot)),
        state.uniform_bind_group.buffer.contents@.len() == 64,
        state.materials@[state.material() as int].bind_group.buffer.contents@.len() == 52,
        state.light_bind_group.buffer.contents@.len() == 28,
{
    let material = state.materials@[state.material() as int];
    assert(material.wf());
}

} // verus!
