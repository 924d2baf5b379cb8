use prepass::command::{
    ClearColor, ClearDepth, ColorAttachment, Command, CommandEncoder, DepthAttachment,
    DrawFunctionId, PREPASS_LABEL,
};
use prepass::graph::SlotType;
use prepass::node::{
    ExtractedView, GpuImage, NodeRunError, Opaque3dPrepass, PrepassNode, RenderPhase, RenderWorld,
};
use prepass::size::PixelSize;
use prepass::system::PrepassSystem;
use prepass::texture::{ContentState, PrepassTexture, TextureHandle};
use prepass::view::{ExtractedCamera, ViewDepthTexture, ViewId, ViewPrepassTextures, Viewport};

const TARGET: TextureHandle = TextureHandle(1);
const DEPTH: TextureHandle = TextureHandle(2);
const SIZE: PixelSize = PixelSize { width: 800, height: 600 };

fn item(entity: u64, draw_function: u32) -> Opaque3dPrepass {
    Opaque3dPrepass { entity, draw_function: DrawFunctionId(draw_function) }
}

fn view(id: u64, items: Vec<Opaque3dPrepass>) -> ExtractedView {
    ExtractedView {
        id: ViewId(id),
        camera: Some(ExtractedCamera { viewport: None }),
        prepass_phase: Some(RenderPhase { items }),
        depth: Some(ViewDepthTexture { texture: DEPTH, size: SIZE }),
        prepass_textures: Some(ViewPrepassTextures { normals_depth: TARGET, size: SIZE }),
    }
}

fn world(views: Vec<ExtractedView>) -> RenderWorld {
    RenderWorld {
        views,
        gpu_images: Some(vec![
            GpuImage { handle: DEPTH, size: SIZE },
            GpuImage { handle: TARGET, size: SIZE },
        ]),
        draw_functions: 4,
    }
}

fn begin() -> Command {
    Command::BeginPass {
        color: ColorAttachment { target: TARGET, size: SIZE, clear: ClearColor::Black, store: true },
        depth: DepthAttachment { target: DEPTH, size: SIZE, clear: ClearDepth::FarPlane, store: true },
    }
}

fn recorded(encoder: &CommandEncoder) -> Vec<Command> {
    (0..encoder.len()).map(|i| encoder.get(i).unwrap()).collect()
}

#[test]
fn node_takes_the_view_through_one_entity_slot() {
    assert_eq!(PrepassNode::IN_VIEW, "view");
    assert_eq!(PREPASS_LABEL, "prepass");
    let slots = PrepassNode::new().input();
    assert_eq!(slots.len(), 1);
    assert_eq!(slots[0].name, "view");
    assert_eq!(slots[0].slot_type, SlotType::Entity);
}

#[test]
fn view_without_queued_geometry_produces_no_pass() {
    let node = PrepassNode::new();
    let world = world(vec![view(7, Vec::new())]);
    let mut encoder = CommandEncoder::new();
    assert_eq!(node.run(Some(ViewId(7)), &world, &mut encoder), Ok(()));
    assert_eq!(encoder.len(), 0);
    assert_eq!(encoder.pass_count(), 0);
    assert_eq!(encoder.get(0), None);
}

#[test]
fn empty_phase_leaves_earlier_commands_alone() {
    let node = PrepassNode::new();
    let world = world(vec![view(7, vec![item(1, 0)]), view(8, Vec::new())]);
    let mut encoder = CommandEncoder::new();
    node.run(Some(ViewId(7)), &world, &mut encoder).unwrap();
    let before = recorded(&encoder);
    assert_eq!(encoder.pass_count(), 1);
    assert_eq!(node.run(Some(ViewId(8)), &world, &mut encoder), Ok(()));
    assert_eq!(recorded(&encoder), before);
    assert_eq!(encoder.pass_count(), 1);
}

#[test]
fn empty_phase_is_skipped_even_where_the_target_has_no_gpu_image() {
    let node = PrepassNode::new();
    let mut world = world(vec![view(7, Vec::new())]);
    world.gpu_images = Some(Vec::new());
    world.draw_functions = 0;
    let mut encoder = CommandEncoder::new();
    assert_eq!(node.run(Some(ViewId(7)), &world, &mut encoder), Ok(()));
    assert_eq!(encoder.len(), 0);
}

#[test]
fn pass_clears_both_attachments_and_draws_in_recorded_order() {
    let node = PrepassNode::new();
    let world = world(vec![view(7, vec![item(30, 2), item(10, 0), item(20, 2)])]);
    let mut encoder = CommandEncoder::new();
    assert_eq!(node.run(Some(ViewId(7)), &world, &mut encoder), Ok(()));
    assert_eq!(
        recorded(&encoder),
        vec![
            begin(),
            Command::Draw { draw_function: DrawFunctionId(2), view: ViewId(7), entity: 30 },
            Command::Draw { draw_function: DrawFunctionId(0), view: ViewId(7), entity: 10 },
            Command::Draw { draw_function: DrawFunctionId(2), view: ViewId(7), entity: 20 },
            Command::EndPass,
        ]
    );
    assert_eq!(encoder.pass_count(), 1);
}

#[test]
fn pass_is_constrained_to_the_viewport_of_the_camera() {
    let node = PrepassNode::new();
    let viewport = Viewport { x: 10, y: 20, width: 400, height: 300 };
    let mut first = view(7, vec![item(1, 1)]);
    first.camera = Some(ExtractedCamera { viewport: Some(viewport) });
    let world = world(vec![first]);
    let mut encoder = CommandEncoder::new();
    assert_eq!(node.run(Some(ViewId(7)), &world, &mut encoder), Ok(()));
    assert_eq!(
        recorded(&encoder),
        vec![
            begin(),
            Command::SetViewport { viewport },
            Command::Draw { draw_function: DrawFunctionId(1), view: ViewId(7), entity: 1 },
            Command::EndPass,
        ]
    );
}

#[test]
fn pass_targets_the_gpu_image_at_its_prepared_size() {
    let mut texture = PrepassTexture::create(TARGET, PixelSize::new(800, 600), 1).unwrap();
    texture.resize(PixelSize::new(1920, 1080)).unwrap();
    let image = GpuImage::prepare(&texture);
    assert_eq!(image, GpuImage { handle: TARGET, size: PixelSize { width: 1920, height: 1080 } });
    let mut world = world(vec![view(7, vec![item(1, 1)])]);
    world.gpu_images = Some(vec![image]);
    let mut encoder = CommandEncoder::new();
    PrepassNode::new().run(Some(ViewId(7)), &world, &mut encoder).unwrap();
    match encoder.get(0) {
        Some(Command::BeginPass { color, depth }) => {
            assert_eq!(color.target, TARGET);
            assert_eq!(color.size, PixelSize { width: 1920, height: 1080 });
            assert_eq!(color.clear, ClearColor::Black);
            assert!(color.store);
            assert_eq!(depth.target, DEPTH);
            assert_eq!(depth.clear, ClearDepth::FarPlane);
            assert!(depth.store);
        }
        other => panic!("no pass was begun: {:?}", other),
    }
}

#[test]
fn the_first_view_of_an_identity_and_the_first_image_of_a_texture_are_used() {
    let mut second = view(7, vec![item(2, 0)]);
    second.camera = None;
    let mut world = world(vec![view(3, Vec::new()), view(7, vec![item(1, 0)]), second]);
    world.gpu_images = Some(vec![
        GpuImage { handle: TARGET, size: PixelSize { width: 1, height: 1 } },
        GpuImage { handle: TARGET, size: PixelSize { width: 2, height: 2 } },
    ]);
    let mut encoder = CommandEncoder::new();
    PrepassNode::new().run(Some(ViewId(7)), &world, &mut encoder).unwrap();
    assert_eq!(encoder.len(), 3);
    match encoder.get(0) {
        Some(Command::BeginPass { color, .. }) => {
            assert_eq!(color.size, PixelSize { width: 1, height: 1 })
        }
        other => panic!("no pass was begun: {:?}", other),
    }
    assert_eq!(
        encoder.get(1),
        Some(Command::Draw { draw_function: DrawFunctionId(0), view: ViewId(7), entity: 1 })
    );
}

#[test]
fn cache_does_not_change_what_is_recorded() {
    let world = world(vec![view(3, vec![item(5, 1)]), view(7, vec![item(1, 0)])]);
    let cold = PrepassNode::new();
    let mut warm = PrepassNode::new();
    warm.update(&world);
    for id in [3, 7, 9] {
        let mut a = CommandEncoder::new();
        let mut b = CommandEncoder::new();
        let ra = cold.run(Some(ViewId(id)), &world, &mut a);
        let rb = warm.run(Some(ViewId(id)), &world, &mut b);
        assert_eq!(ra, rb);
        assert_eq!(recorded(&a), recorded(&b));
    }
    let empty = RenderWorld { views: Vec::new(), gpu_images: Some(Vec::new()), draw_functions: 0 };
    warm.update(&empty);
    let mut encoder = CommandEncoder::new();
    assert_eq!(warm.run(Some(ViewId(3)), &world, &mut encoder), Ok(()));
    assert_eq!(encoder.len(), 3);
}

fn failure(input: Option<ViewId>, world: &RenderWorld) -> Result<(), NodeRunError> {
    let mut encoder = CommandEncoder::new();
    encoder.record(Command::EndPass);
    let r = PrepassNode::new().run(input, world, &mut encoder);
    assert_eq!(recorded(&encoder), vec![Command::EndPass]);
    r
}

#[test]
fn missing_resources_fail_the_run_and_record_nothing() {
    let full = || world(vec![view(7, vec![item(1, 0)])]);
    assert_eq!(failure(None, &full()), Err(NodeRunError::MissingViewInput));

    let mut w = full();
    w.gpu_images = None;
    assert_eq!(failure(Some(ViewId(7)), &w), Err(NodeRunError::MissingTextureRegistry));

    assert_eq!(failure(Some(ViewId(8)), &full()), Err(NodeRunError::MissingView));

    let mut w = full();
    w.views[0].camera = None;
    assert_eq!(failure(Some(ViewId(7)), &w), Err(NodeRunError::MissingCamera));

    let mut w = full();
    w.views[0].prepass_phase = None;
    assert_eq!(failure(Some(ViewId(7)), &w), Err(NodeRunError::MissingPhase));

    let mut w = full();
    w.views[0].depth = None;
    assert_eq!(failure(Some(ViewId(7)), &w), Err(NodeRunError::MissingDepthTexture));

    let mut w = full();
    w.views[0].prepass_textures = None;
    assert_eq!(failure(Some(ViewId(7)), &w), Err(NodeRunError::MissingViewTextures));

    let mut w = full();
    w.gpu_images = Some(vec![GpuImage { handle: DEPTH, size: SIZE }]);
    assert_eq!(failure(Some(ViewId(7)), &w), Err(NodeRunError::MissingTexture));

    let mut w = world(vec![view(7, vec![item(1, 0), item(2, 4)])]);
    assert_eq!(failure(Some(ViewId(7)), &w), Err(NodeRunError::MissingDrawFunction));
    w.draw_functions = 5;
    let mut encoder = CommandEncoder::new();
    assert_eq!(PrepassNode::new().run(Some(ViewId(7)), &w, &mut encoder), Ok(()));
    assert_eq!(encoder.len(), 4);
}

#[test]
fn missing_resources_are_reported_in_a_fixed_order() {
    let mut w = world(vec![view(7, vec![item(1, 9)])]);
    w.views[0].camera = None;
    w.views[0].prepass_phase = None;
    w.views[0].depth = None;
    w.views[0].prepass_textures = None;
    w.gpu_images = Some(Vec::new());
    assert_eq!(failure(Some(ViewId(7)), &w), Err(NodeRunError::MissingCamera));
    w.views[0].camera = Some(ExtractedCamera { viewport: None });
    assert_eq!(failure(Some(ViewId(7)), &w), Err(NodeRunError::MissingPhase));
    w.views[0].prepass_phase = Some(RenderPhase { items: vec![item(1, 9)] });
    assert_eq!(failure(Some(ViewId(7)), &w), Err(NodeRunError::MissingDepthTexture));
    w.views[0].depth = Some(ViewDepthTexture { texture: DEPTH, size: SIZE });
    assert_eq!(failure(Some(ViewId(7)), &w), Err(NodeRunError::MissingViewTextures));
    w.views[0].prepass_textures = Some(ViewPrepassTextures { normals_depth: TARGET, size: SIZE });
    assert_eq!(failure(Some(ViewId(7)), &w), Err(NodeRunError::MissingTexture));
    w.gpu_images = Some(vec![GpuImage { handle: TARGET, size: SIZE }]);
    assert_eq!(failure(Some(ViewId(7)), &w), Err(NodeRunError::MissingDrawFunction));
    w.gpu_images = None;
    assert_eq!(failure(Some(ViewId(7)), &w), Err(NodeRunError::MissingTextureRegistry));
    assert_eq!(failure(None, &w), Err(NodeRunError::MissingViewInput));
}

#[test]
fn encoder_counts_the_passes_it_begins() {
    let mut encoder = CommandEncoder::new();
    assert_eq!(encoder.pass_count(), 0);
    encoder.record(begin());
    encoder.record(Command::EndPass);
    encoder.record(begin());
    encoder.record(Command::Draw { draw_function: DrawFunctionId(0), view: ViewId(1), entity: 1 });
    encoder.record(Command::EndPass);
    assert_eq!(encoder.len(), 5);
    assert_eq!(encoder.pass_count(), 2);
    assert_eq!(encoder.get(4), Some(Command::EndPass));
    assert_eq!(encoder.get(5), None);
}

fn system_world(system: &PrepassSystem, items: Vec<Opaque3dPrepass>) -> RenderWorld {
    let texture = system.texture();
    RenderWorld {
        views: vec![ExtractedView {
            id: ViewId(7),
            camera: Some(ExtractedCamera { viewport: None }),
            prepass_phase: Some(RenderPhase { items }),
            depth: Some(ViewDepthTexture { texture: DEPTH, size: texture.size() }),
            prepass_textures: Some(system.view_textures()),
        }],
        gpu_images: Some(vec![GpuImage::prepare(texture)]),
        draw_functions: 1,
    }
}

#[test]
fn texture_is_written_once_the_node_has_recorded_its_pass() {
    let mut system = PrepassSystem::setup(TARGET, SIZE, 1).unwrap();
    let node = PrepassNode::new();
    let mut encoder = CommandEncoder::new();

    system.begin_frame();
    let empty = system_world(&system, Vec::new());
    assert_eq!(system.run_prepass(&node, Some(ViewId(7)), &empty, &mut encoder), Ok(()));
    assert_eq!(system.texture().content(), ContentState::Undefined);
    assert_eq!(encoder.len(), 0);

    let failing = system_world(&system, vec![item(1, 3)]);
    assert_eq!(
        system.run_prepass(&node, Some(ViewId(7)), &failing, &mut encoder),
        Err(NodeRunError::MissingDrawFunction)
    );
    assert_eq!(system.texture().content(), ContentState::Undefined);
    assert_eq!(encoder.len(), 0);

    let queued = system_world(&system, vec![item(1, 0)]);
    assert_eq!(system.run_prepass(&node, Some(ViewId(7)), &queued, &mut encoder), Ok(()));
    assert_eq!(system.texture().content(), ContentState::Written);
    assert!(system.texture().is_sampleable());
    assert_eq!(encoder.pass_count(), 1);
    assert_eq!(
        encoder.get(0),
        Some(Command::BeginPass {
            color: ColorAttachment { target: TARGET, size: SIZE, clear: ClearColor::Black, store: true },
            depth: DepthAttachment { target: DEPTH, size: SIZE, clear: ClearDepth::FarPlane, store: true },
        })
    );

    system.begin_frame();
    assert_eq!(system.texture().content(), ContentState::Undefined);
}

#[test]
fn a_pass_into_another_texture_does_not_write_this_one() {
    let mut system = PrepassSystem::setup(TextureHandle(9), SIZE, 1).unwrap();
    let node = PrepassNode::new();
    let mut encoder = CommandEncoder::new();
    let other = world(vec![view(7, vec![item(1, 0)])]);
    assert_eq!(system.run_prepass(&node, Some(ViewId(7)), &other, &mut encoder), Ok(()));
    assert_eq!(encoder.pass_count(), 1);
    assert_eq!(system.texture().content(), ContentState::Undefined);
}
