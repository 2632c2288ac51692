use scene_renderer::binding::{BindingKind, BufferUsage, LayoutEntry, ShaderStages};
use scene_renderer::camera::Camera;
use scene_renderer::event::{
    after_frame, handle_event, Directive, Event, FailureClass, Key, WindowEvent,
};
use scene_renderer::material::{Image, MaterialData, MaterialSource};
use scene_renderer::mesh::{MeshData, MeshError, ModelData};
use scene_renderer::pipeline::{GroupRef, RenderPipeline};
use scene_renderer::shader::{check_spirv, Shader, ShaderFault, Stage};
use scene_renderer::state::{Command, StartupError, State, SurfaceError};
use scene_renderer::surface::{Size, SurfaceConfig};
use scene_renderer::texture::TextureError;

const FACES: [([f32; 3], [f32; 3], [f32; 3]); 6] = [
    ([0.0, 0.0, 1.0], [1.0, 0.0, 0.0], [0.0, 1.0, 0.0]),
    ([0.0, 0.0, -1.0], [-1.0, 0.0, 0.0], [0.0, 1.0, 0.0]),
    ([1.0, 0.0, 0.0], [0.0, 0.0, -1.0], [0.0, 1.0, 0.0]),
    ([-1.0, 0.0, 0.0], [0.0, 0.0, 1.0], [0.0, 1.0, 0.0]),
    ([0.0, 1.0, 0.0], [1.0, 0.0, 0.0], [0.0, 0.0, -1.0]),
    ([0.0, -1.0, 0.0], [1.0, 0.0, 0.0], [0.0, 0.0, 1.0]),
];

fn cube() -> ModelData {
    let mut positions = Vec::new();
    let mut normals = Vec::new();
    let mut texcoords = Vec::new();
    let mut indices = Vec::new();
    for (face, (n, u, v)) in FACES.iter().enumerate() {
        let corners = [(-1.0f32, -1.0f32), (1.0, -1.0), (1.0, 1.0), (-1.0, 1.0)];
        for (a, b) in corners.iter() {
            for k in 0..3 {
                positions.push((n[k] + a * u[k] + b * v[k]).to_bits());
                normals.push(n[k].to_bits());
            }
            texcoords.push(((a + 1.0) / 2.0).to_bits());
            texcoords.push(((b + 1.0) / 2.0).to_bits());
        }
        let base = 4 * face as u32;
        indices.extend_from_slice(&[base, base + 1, base + 2, base, base + 2, base + 3]);
    }
    ModelData {
        name: "Cube".to_string(),
        mesh: MeshData { positions, normals, texcoords, indices, material_id: Some(0) },
    }
}

fn cube_material() -> MaterialSource {
    MaterialSource {
        data: MaterialData {
            name: "Material".to_string(),
            diffuse_texture: "cube-diffuse.jpg".to_string(),
            ambient: [1.0f32.to_bits(), 0, 0],
            diffuse: [0, 1.0f32.to_bits(), 0],
            specular: [0, 0, 1.0f32.to_bits()],
            shininess: 32.0f32.to_bits(),
        },
        image: Image { width: 2, height: 2, pixels: vec![255; 16] },
    }
}

fn matrix(seed: f32) -> [[u32; 4]; 4] {
    let mut m = [[0u32; 4]; 4];
    for c in 0..4 {
        for r in 0..4 {
            m[c][r] = (seed + (4 * c + r) as f32).to_bits();
        }
    }
    m
}

fn matrix_bytes(m: &[[u32; 4]; 4]) -> Vec<u8> {
    let mut out = Vec::new();
    for column in m {
        for value in column {
            out.extend_from_slice(&value.to_le_bytes());
        }
    }
    out
}

fn spirv(words: u32) -> Vec<u8> {
    let mut code = vec![0x03, 0x02, 0x23, 0x07];
    for w in 1..words {
        code.extend_from_slice(&w.to_le_bytes());
    }
    code
}

fn start(
    size: Size,
    models: Vec<ModelData>,
    materials: Vec<MaterialSource>,
    view_proj: [[u32; 4]; 4],
) -> Result<State, StartupError> {
    State::new(size, models, materials, spirv(5), spirv(7), view_proj)
}

fn started(width: u32, height: u32) -> State {
    start(Size { width, height }, vec![cube()], vec![cube_material()], matrix(1.0)).unwrap()
}

fn expected_commands(material: usize, count: u32) -> Vec<Command> {
    vec![
        Command::SetPipeline,
        Command::SetBindGroup { slot: 0, group: GroupRef::Camera },
        Command::SetBindGroup { slot: 1, group: GroupRef::DiffuseTexture { material } },
        Command::SetBindGroup { slot: 2, group: GroupRef::Material { material } },
        Command::SetBindGroup { slot: 3, group: GroupRef::Light },
        Command::SetVertexBuffer { slot: 0, model: 0 },
        Command::SetIndexBuffer { model: 0 },
        Command::DrawIndexed {
            first_index: 0,
            end_index: count,
            base_vertex: 0,
            first_instance: 0,
            end_instance: 1,
        },
    ]
}

#[test]
fn cube_has_24_vertices_and_36_indices() {
    let c = cube();
    assert_eq!(c.mesh.positions.len(), 72);
    assert_eq!(c.mesh.normals.len(), 72);
    assert_eq!(c.mesh.texcoords.len(), 48);
    assert_eq!(c.mesh.indices.len(), 36);
    assert_eq!(c.mesh.fault(), None);
}

#[test]
fn startup_builds_everything() {
    let s = started(800, 600);
    assert_eq!(s.size, Size { width: 800, height: 600 });
    assert_eq!(s.sc_desc, SurfaceConfig::for_size(Size { width: 800, height: 600 }));
    assert_eq!(s.generation, 0);
    assert_eq!(s.camera, Camera::fixed(800, 600));
    assert_eq!(s.uniforms.view_proj, matrix(1.0));
    assert!(!s.stale);
    assert!(!s.needs_update());
    assert_eq!(
        s.render_pipeline,
        RenderPipeline::fixed(
            s.sc_desc.format,
            0,
            Shader::new(Stage::Vertex, spirv(5)).unwrap(),
            Shader::new(Stage::Fragment, spirv(7)).unwrap(),
        )
    );
    assert_eq!(s.render_pipeline.vertex_stage.code, spirv(5));
    assert_eq!(s.render_pipeline.vertex_stage.stage, Stage::Vertex);
    assert_eq!(s.render_pipeline.vertex_stage.entry_point, "main");
    assert_eq!(s.render_pipeline.fragment_stage.code, spirv(7));
    assert_eq!(s.render_pipeline.fragment_stage.stage, Stage::Fragment);
    assert_eq!(s.render_pipeline.fragment_stage.entry_point, "main");

    assert_eq!(s.uniform_bind_group_layout.label, Some("uniform_bind_group_layout".to_string()));
    assert_eq!(
        s.uniform_bind_group_layout.entries,
        vec![LayoutEntry {
            binding: 0,
            visibility: ShaderStages { vertex: true, fragment: false },
            kind: BindingKind::UniformBuffer,
        }]
    );
    assert_eq!(s.uniform_bind_group.label, Some("uniform_bind_group".to_string()));
    assert_eq!(s.uniform_bind_group.buffer.label, Some("uniform_buffer".to_string()));
    assert_eq!(s.uniform_bind_group.buffer.contents, matrix_bytes(&matrix(1.0)));
    assert_eq!(
        s.uniform_bind_group.buffer.usage,
        BufferUsage { uniform: true, copy_dst: true, vertex: false, index: false }
    );
    assert!(s.uniform_bind_group.check(&s.uniform_bind_group_layout));

    assert_eq!(s.light_bind_group_layout.label, None);
    assert_eq!(
        s.light_bind_group_layout.entries,
        vec![LayoutEntry {
            binding: 0,
            visibility: ShaderStages { vertex: true, fragment: true },
            kind: BindingKind::UniformBuffer,
        }]
    );
    assert_eq!(s.light_bind_group.label, None);
    assert_eq!(s.light_bind_group.buffer.label, Some("Light VB".to_string()));
    assert_eq!(s.light_bind_group.buffer.contents, s.light.bytes());
    assert_eq!(s.light_bind_group.buffer.contents.len(), 28);
    assert!(s.light_bind_group.check(&s.light_bind_group_layout));

    assert_eq!(s.models.len(), 1);
    assert_eq!(s.models[0].name, "Cube");
    assert_eq!(s.models[0].mesh.num_indices, 36);
    assert_eq!(s.models[0].mesh.vertex_buffer.contents.len(), 24 * 32);
    assert_eq!(s.models[0].mesh.index_buffer.contents.len(), 36 * 4);
    assert_eq!(s.materials.len(), 1);
    assert_eq!(s.materials[0].name, "Material");
    assert_eq!(s.materials[0].bind_group.buffer.contents.len(), 52);

    assert_eq!(s.depth_texture.label, Some("depth_texture".to_string()));
    assert_eq!(s.depth_texture.width, 800);
    assert_eq!(s.depth_texture.height, 600);
    assert_eq!(s.depth_texture.generation, 0);
}

#[test]
fn startup_refuses_a_surface_without_extent() {
    let r = start(Size { width: 0, height: 600 }, vec![cube()], vec![cube_material()], matrix(0.0));
    assert_eq!(r, Err(StartupError::ZeroExtent));
    let r = start(Size { width: 800, height: 0 }, vec![], vec![], matrix(0.0));
    assert_eq!(r, Err(StartupError::ZeroExtent));
}

#[test]
fn startup_reports_the_first_unsound_mesh() {
    let mut second = cube();
    second.mesh.indices.push(0);
    let mut third = cube();
    third.mesh.normals.clear();
    let r = start(
        Size { width: 8, height: 6 },
        vec![cube(), second.clone(), third.clone()],
        vec![cube_material()],
        matrix(0.0),
    );
    assert_eq!(r, Err(StartupError::Mesh { index: 1, error: MeshError::IndexCount }));
    let r = start(
        Size { width: 8, height: 6 },
        vec![third, second],
        vec![cube_material()],
        matrix(0.0),
    );
    assert_eq!(r, Err(StartupError::Mesh { index: 0, error: MeshError::NormalCount }));
    let r = start(
        Size { width: 8, height: 6 },
        vec![cube(), cube()],
        vec![cube_material()],
        matrix(0.0),
    );
    assert_eq!(r.unwrap().models.len(), 2);
}

#[test]
fn startup_reports_the_first_unusable_image() {
    let mut bad = cube_material();
    bad.image.pixels.pop();
    let mut worse = cube_material();
    worse.image.width = 0;
    let r = start(
        Size { width: 8, height: 6 },
        vec![cube()],
        vec![cube_material(), bad.clone(), worse.clone()],
        matrix(0.0),
    );
    assert_eq!(r, Err(StartupError::Material { index: 1, error: TextureError::PixelCount }));
    let r = start(
        Size { width: 8, height: 6 },
        vec![cube()],
        vec![worse, bad],
        matrix(0.0),
    );
    assert_eq!(r, Err(StartupError::Material { index: 0, error: TextureError::ZeroExtent }));
}

#[test]
fn startup_reports_a_mesh_fault_before_an_image_fault() {
    let mut mesh = cube();
    mesh.mesh.positions.pop();
    let mut material = cube_material();
    material.image.pixels.clear();
    let r = start(Size { width: 8, height: 6 }, vec![mesh], vec![material], matrix(0.0));
    assert_eq!(r, Err(StartupError::Mesh { index: 0, error: MeshError::RaggedPositions }));
}

#[test]
fn startup_needs_a_mesh() {
    let r = start(Size { width: 8, height: 6 }, vec![], vec![cube_material()], matrix(0.0));
    assert_eq!(r, Err(StartupError::NoModel));
}

#[test]
fn startup_needs_the_material_of_the_first_mesh() {
    let r = start(Size { width: 8, height: 6 }, vec![cube()], vec![], matrix(0.0));
    assert_eq!(r, Err(StartupError::MaterialIndex));
    let mut mesh = cube();
    mesh.mesh.material_id = Some(1);
    let r = start(Size { width: 8, height: 6 }, vec![mesh], vec![cube_material()], matrix(0.0));
    assert_eq!(r, Err(StartupError::MaterialIndex));
    let mut mesh = cube();
    mesh.mesh.material_id = None;
    let r = start(Size { width: 8, height: 6 }, vec![mesh], vec![cube_material()], matrix(0.0));
    assert!(r.is_ok());
}

#[test]
fn startup_refuses_what_is_no_shader_binary() {
    let size = Size { width: 8, height: 6 };
    let attempt = |vertex: Vec<u8>, fragment: Vec<u8>| {
        State::new(size, vec![cube()], vec![cube_material()], vertex, fragment, matrix(0.0))
    };
    assert_eq!(
        attempt(vec![], spirv(2)),
        Err(StartupError::Shader { stage: Stage::Vertex, fault: ShaderFault::Empty })
    );
    assert_eq!(
        attempt(vec![0x03, 0x02, 0x23, 0x07, 0x00], vec![]),
        Err(StartupError::Shader { stage: Stage::Vertex, fault: ShaderFault::Ragged })
    );
    assert_eq!(
        attempt(spirv(2), vec![0x07, 0x23, 0x02, 0x03]),
        Err(StartupError::Shader { stage: Stage::Fragment, fault: ShaderFault::Magic })
    );
    assert_eq!(
        attempt(spirv(1), vec![0x03, 0x02]),
        Err(StartupError::Shader { stage: Stage::Fragment, fault: ShaderFault::Ragged })
    );
    assert!(attempt(spirv(1), spirv(1)).is_ok());
    let r = State::new(size, vec![cube()], vec![], vec![], vec![], matrix(0.0));
    assert_eq!(r, Err(StartupError::MaterialIndex));
}

#[test]
fn shader_binaries_are_recognised() {
    assert_eq!(check_spirv(&[]), Some(ShaderFault::Empty));
    assert_eq!(check_spirv(&[0x03]), Some(ShaderFault::Ragged));
    assert_eq!(check_spirv(&[0x03, 0x02, 0x23]), Some(ShaderFault::Ragged));
    assert_eq!(check_spirv(&[0x03, 0x02, 0x23, 0x07]), None);
    assert_eq!(check_spirv(&[0x03, 0x02, 0x23, 0x07, 1, 2]), Some(ShaderFault::Ragged));
    assert_eq!(check_spirv(&[0x03, 0x02, 0x23, 0x07, 1, 2, 3, 4]), None);
    assert_eq!(check_spirv(&[0x07, 0x23, 0x02, 0x03]), Some(ShaderFault::Magic));
    assert_eq!(check_spirv(&[0x03, 0x02, 0x23, 0x08]), Some(ShaderFault::Magic));
    assert_eq!(check_spirv(&[0x02, 0x02, 0x23, 0x07]), Some(ShaderFault::Magic));
    assert_eq!(u32::from_le_bytes([0x03, 0x02, 0x23, 0x07]), 0x0723_0203);
    let shader = Shader::new(Stage::Fragment, spirv(3)).unwrap();
    assert_eq!(shader.stage, Stage::Fragment);
    assert_eq!(shader.code, spirv(3));
    assert_eq!(shader.entry_point, "main");
    assert_eq!(Shader::new(Stage::Vertex, vec![1, 2, 3, 4]), Err(ShaderFault::Magic));
}

#[test]
fn resize_replaces_what_depends_on_the_size() {
    let before = started(800, 600);
    let mut s = before.clone();
    assert!(s.resize(Size { width: 1024, height: 768 }));
    assert_eq!(s.size, Size { width: 1024, height: 768 });
    assert_eq!(s.sc_desc, SurfaceConfig::for_size(Size { width: 1024, height: 768 }));
    assert_eq!(s.camera, Camera::fixed(1024, 768));
    assert_eq!(s.depth_texture.width, 1024);
    assert_eq!(s.depth_texture.height, 768);
    assert_eq!(s.depth_texture.label, before.depth_texture.label);
    assert_eq!(s.generation, 1);
    assert_eq!(s.depth_texture.generation, 1);
    assert!(s.stale);
    assert_eq!(s.render_pipeline, before.render_pipeline);
    assert_eq!(s.models, before.models);
    assert_eq!(s.materials, before.materials);
    assert_eq!(s.uniform_bind_group, before.uniform_bind_group);
    assert_eq!(s.light_bind_group, before.light_bind_group);
    assert_eq!(s.uniforms, before.uniforms);
}

#[test]
fn resize_there_and_back_restores_configuration_and_aspect() {
    let before = started(800, 600);
    let mut s = before.clone();
    assert!(s.resize(Size { width: 333, height: 77 }));
    assert!(s.resize(Size { width: 800, height: 600 }));
    assert_eq!(s.sc_desc, before.sc_desc);
    assert_eq!(s.camera, before.camera);
    assert_eq!(s.size, before.size);
    let a = before.camera.aspect_width as f32 / before.camera.aspect_height as f32;
    let b = s.camera.aspect_width as f32 / s.camera.aspect_height as f32;
    assert_eq!(a.to_bits(), b.to_bits());
    assert_eq!(s.generation, 2);
    assert_eq!(s.depth_texture.generation, 2);
}

#[test]
fn resize_to_nothing_is_refused() {
    let before = started(800, 600);
    let mut s = before.clone();
    assert!(!s.resize(Size { width: 0, height: 0 }));
    assert_eq!(s, before);
    assert!(!s.resize(Size { width: 0, height: 600 }));
    assert_eq!(s, before);
    assert!(!s.resize(Size { width: 800, height: 0 }));
    assert_eq!(s, before);
}

#[test]
fn resize_to_the_same_size_starts_a_generation_and_keeps_the_uniforms() {
    let before = started(800, 600);
    let mut s = before.clone();
    assert!(s.resize(Size { width: 800, height: 600 }));
    assert_eq!(s.generation, 1);
    assert_eq!(s.depth_texture.generation, 1);
    assert!(!s.stale);
    assert_eq!(s.camera, before.camera);
    assert_eq!(s.sc_desc, before.sc_desc);
}

#[test]
fn generation_wraps() {
    let mut s = started(8, 6);
    s.generation = u64::MAX;
    s.depth_texture.generation = u64::MAX;
    assert!(s.resize(Size { width: 9, height: 6 }));
    assert_eq!(s.generation, 0);
    assert_eq!(s.depth_texture.generation, 0);
}

#[test]
fn input_consumes_nothing() {
    let before = started(8, 6);
    let mut s = before.clone();
    assert!(!s.input(&WindowEvent::CloseRequested));
    assert!(!s.input(&WindowEvent::KeyboardInput { pressed: true, key: Key::Escape }));
    assert!(!s.input(&WindowEvent::Resized(Size { width: 1, height: 1 })));
    assert!(!s.input(&WindowEvent::Other));
    assert_eq!(s, before);
}

#[test]
fn update_does_nothing_while_the_camera_is_unchanged() {
    let before = started(8, 6);
    let mut s = before.clone();
    assert!(!s.update(matrix(50.0)));
    assert_eq!(s, before);
}

#[test]
fn update_takes_the_matrix_after_a_resize() {
    let mut s = started(8, 6);
    s.resize(Size { width: 16, height: 6 });
    assert!(s.needs_update());
    let resized = s.clone();
    assert!(s.update(matrix(50.0)));
    assert!(!s.needs_update());
    assert_eq!(s.uniforms.view_proj, matrix(50.0));
    assert_eq!(s.uniform_bind_group.buffer.contents, matrix_bytes(&matrix(50.0)));
    assert_eq!(s.uniform_bind_group.buffer.label, resized.uniform_bind_group.buffer.label);
    assert_eq!(s.uniform_bind_group.label, resized.uniform_bind_group.label);
    assert_eq!(s.camera, resized.camera);
    assert_eq!(s.models, resized.models);
    assert_eq!(s.depth_texture, resized.depth_texture);
    let after = s.clone();
    assert!(!s.update(matrix(70.0)));
    assert_eq!(s, after);
}

#[test]
fn render_issues_one_draw_over_all_indices() {
    let before = started(800, 600);
    let mut s = before.clone();
    let frame = s.render(Ok(())).unwrap();
    assert_eq!(s, before);
    assert_eq!(frame.encoder_label, "Render Encoder");
    assert_eq!(frame.pass.commands, expected_commands(0, 36));
    let draws: Vec<&Command> = frame
        .pass
        .commands
        .iter()
        .filter(|c| matches!(c, Command::DrawIndexed { .. }))
        .collect();
    assert_eq!(draws.len(), 1);
    assert_eq!(
        *draws[0],
        Command::DrawIndexed {
            first_index: 0,
            end_index: 36,
            base_vertex: 0,
            first_instance: 0,
            end_instance: 1,
        }
    );
    assert_eq!(
        frame.pass.clear_color,
        [0.1f64.to_bits(), 0.2f64.to_bits(), 0.3f64.to_bits(), 1.0f64.to_bits()]
    );
    assert_eq!(f32::from_bits(frame.pass.clear_depth), 1.0);
    assert!(frame.pass.color_store);
    assert!(frame.pass.depth_store);
    assert_eq!(frame.pass.depth_generation, 0);
}

#[test]
fn first_frame_of_the_cube_binds_all_four_groups() {
    let mut s = started(800, 600);
    let frame = s.render(Ok(())).unwrap();
    let mut bound = Vec::new();
    let mut drawn = 0;
    for command in frame.pass.commands.iter() {
        match command {
            Command::SetBindGroup { slot, group } => {
                assert_eq!(drawn, 0);
                assert_eq!(*slot as usize, bound.len());
                assert_eq!(s.render_pipeline.bind_group_layouts[*slot as usize], *group);
                assert!(s.bind_group_layout(*group).is_some());
                bound.push(*group);
            }
            Command::DrawIndexed { first_index, end_index, first_instance, end_instance, .. } => {
                assert_eq!((*first_index, *end_index), (0, 36));
                assert_eq!((*first_instance, *end_instance), (0, 1));
                drawn += 1;
            }
            _ => {}
        }
    }
    assert_eq!(drawn, 1);
    assert_eq!(bound.len(), 4);
    assert_eq!(s.models[0].mesh.index_buffer.contents.len(), 4 * 36);
}

#[test]
fn render_draws_with_the_material_of_the_first_mesh() {
    let mut mesh = cube();
    mesh.mesh.material_id = Some(1);
    mesh.mesh.indices.truncate(6);
    let mut s = start(
        Size { width: 8, height: 6 },
        vec![mesh, cube()],
        vec![cube_material(), cube_material()],
        matrix(0.0),
    )
    .unwrap();
    let frame = s.render(Ok(())).unwrap();
    assert_eq!(frame.pass.commands, expected_commands(1, 6));
}

#[test]
fn render_draws_into_the_current_depth_attachment() {
    let mut s = started(8, 6);
    s.resize(Size { width: 80, height: 60 });
    s.resize(Size { width: 81, height: 60 });
    let frame = s.render(Ok(())).unwrap();
    assert_eq!(frame.pass.depth_generation, 2);
    assert_eq!(frame.pass.depth_generation, s.depth_texture.generation);
}

#[test]
fn render_passes_a_failed_acquisition_on() {
    let before = started(8, 6);
    let mut s = before.clone();
    assert_eq!(s.render(Err(SurfaceError::Lost)), Err(SurfaceError::Lost));
    assert_eq!(s.render(Err(SurfaceError::Outdated)), Err(SurfaceError::Outdated));
    assert_eq!(s.render(Err(SurfaceError::Timeout)), Err(SurfaceError::Timeout));
    assert_eq!(s.render(Err(SurfaceError::OutOfMemory)), Err(SurfaceError::OutOfMemory));
    assert_eq!(s, before);
}

#[test]
fn bind_group_layouts_are_found_by_role() {
    let s = started(8, 6);
    assert_eq!(s.bind_group_layout(GroupRef::Camera), Some(&s.uniform_bind_group_layout));
    assert_eq!(s.bind_group_layout(GroupRef::Light), Some(&s.light_bind_group_layout));
    assert_eq!(
        s.bind_group_layout(GroupRef::Material { material: 0 }),
        Some(&s.materials[0].bind_group_layout)
    );
    assert_eq!(
        s.bind_group_layout(GroupRef::DiffuseTexture { material: 0 }),
        Some(&s.materials[0].diffuse_texture.bind_group_layout)
    );
    assert_eq!(s.bind_group_layout(GroupRef::Material { material: 1 }), None);
    assert_eq!(s.bind_group_layout(GroupRef::DiffuseTexture { material: 1 }), None);
}

#[test]
fn failures_are_classified() {
    assert_eq!(SurfaceError::Lost.class(), FailureClass::Recoverable);
    assert_eq!(SurfaceError::Outdated.class(), FailureClass::Recoverable);
    assert_eq!(SurfaceError::OutOfMemory.class(), FailureClass::Fatal);
    assert_eq!(SurfaceError::Timeout.class(), FailureClass::Transient);
}

#[test]
fn close_request_ends_the_loop() {
    let before = started(8, 6);
    let mut s = before.clone();
    let e = Event::Window { own_window: true, event: WindowEvent::CloseRequested };
    assert_eq!(handle_event(&mut s, &e), Directive::Exit);
    assert_eq!(s, before);
}

#[test]
fn events_of_other_windows_are_passed_over() {
    let before = started(8, 6);
    let mut s = before.clone();
    let e = Event::Window { own_window: false, event: WindowEvent::CloseRequested };
    assert_eq!(handle_event(&mut s, &e), Directive::Proceed);
    let e = Event::Window {
        own_window: false,
        event: WindowEvent::Resized(Size { width: 1, height: 1 }),
    };
    assert_eq!(handle_event(&mut s, &e), Directive::Proceed);
    assert_eq!(s, before);
}

#[test]
fn key_presses_are_passed_over() {
    let before = started(8, 6);
    let mut s = before.clone();
    for key in [Key::Escape, Key::Other] {
        for pressed in [true, false] {
            let e = Event::Window {
                own_window: true,
                event: WindowEvent::KeyboardInput { pressed, key },
            };
            assert_eq!(handle_event(&mut s, &e), Directive::Proceed);
        }
    }
    let e = Event::Window { own_window: true, event: WindowEvent::Other };
    assert_eq!(handle_event(&mut s, &e), Directive::Proceed);
    assert_eq!(handle_event(&mut s, &Event::Other), Directive::Proceed);
    assert_eq!(s, before);
}

#[test]
fn resize_events_resize_the_renderer() {
    let mut s = started(8, 6);
    let e = Event::Window {
        own_window: true,
        event: WindowEvent::Resized(Size { width: 20, height: 10 }),
    };
    assert_eq!(handle_event(&mut s, &e), Directive::Reconfigure);
    assert_eq!(s.size, Size { width: 20, height: 10 });
    let e = Event::Window {
        own_window: true,
        event: WindowEvent::ScaleFactorChanged { new_inner_size: Size { width: 40, height: 20 } },
    };
    assert_eq!(handle_event(&mut s, &e), Directive::Reconfigure);
    assert_eq!(s.size, Size { width: 40, height: 20 });
    assert_eq!(s.depth_texture.width, 40);
    let before = s.clone();
    let e = Event::Window {
        own_window: true,
        event: WindowEvent::Resized(Size { width: 0, height: 0 }),
    };
    assert_eq!(handle_event(&mut s, &e), Directive::Proceed);
    let e = Event::Window {
        own_window: true,
        event: WindowEvent::ScaleFactorChanged { new_inner_size: Size { width: 0, height: 9 } },
    };
    assert_eq!(handle_event(&mut s, &e), Directive::Proceed);
    assert_eq!(s, before);
}

#[test]
fn the_loop_asks_for_redraws_and_answers_them() {
    let before = started(8, 6);
    let mut s = before.clone();
    assert_eq!(handle_event(&mut s, &Event::MainEventsCleared), Directive::RequestRedraw);
    assert_eq!(handle_event(&mut s, &Event::RedrawRequested), Directive::Redraw);
    assert_eq!(s, before);
}

#[test]
fn a_lost_surface_is_configured_anew() {
    for error in [SurfaceError::Lost, SurfaceError::Outdated] {
        let before = started(8, 6);
        let mut s = before.clone();
        assert_eq!(after_frame(&mut s, Err(error)), Directive::Reconfigure);
        assert_eq!(s.size, before.size);
        assert_eq!(s.sc_desc, before.sc_desc);
        assert_eq!(s.camera, before.camera);
        assert_eq!(s.generation, 1);
        assert_eq!(s.depth_texture.generation, 1);
        assert!(!s.stale);
    }
}

#[test]
fn out_of_memory_ends_the_loop() {
    let before = started(8, 6);
    let mut s = before.clone();
    assert_eq!(after_frame(&mut s, Err(SurfaceError::OutOfMemory)), Directive::Exit);
    assert_eq!(s, before);
}

#[test]
fn other_failures_skip_the_frame() {
    let before = started(8, 6);
    let mut s = before.clone();
    assert_eq!(
        after_frame(&mut s, Err(SurfaceError::Timeout)),
        Directive::Report(SurfaceError::Timeout)
    );
    assert_eq!(after_frame(&mut s, Ok(())), Directive::Proceed);
    assert_eq!(s, before);
}
