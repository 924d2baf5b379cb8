//! The render-graph node that records the prepass of a view.

use vstd::prelude::*;
use crate::command::{
    ClearColor, ClearDepth, ColorAttachment, Command, CommandEncoder, DepthAttachment,
    DrawFunctionId,
};
use crate::graph::{SlotInfo, SlotModel, SlotType};
use crate::size::PixelSize;
use crate::texture::{PrepassTexture, TextureHandle};
use crate::view::{ExtractedCamera, ViewDepthTexture, ViewId, ViewPrepassTextures, Viewport};

verus! {

/// An opaque draw item queued for the prepass of a view.
#[derive(Clone, Copy, Debug, PartialEq, Eq, Structural)]
pub struct Opaque3dPrepass {
    pub entity: u64,
    pub draw_function: DrawFunctionId,
}

/// The draw items queued for one phase of a view, in the order in which the
/// sorting policy of the phase left them.
pub struct RenderPhase {
    pub items: Vec<Opaque3dPrepass>,
}

/// The GPU-side image of a texture: its storage and a view of it, at the size
/// at which the backend prepared it.
#[derive(Clone, Copy, Debug, PartialEq, Eq, Structural)]
pub struct GpuImage {
    pub handle: TextureHandle,
    pub size: PixelSize,
}

impl GpuImage {
    /// The GPU-side image that the backend prepares from a texture: it has
    /// the identity and the current size of the texture.
    pub fn prepare(texture: &PrepassTexture) -> (image: GpuImage)
        ensures
            image == (GpuImage { handle: texture@.handle, size: texture@.size }),
    {
        GpuImage { handle: texture.handle(), size: texture.size() }
    }
}

/// What the render world holds for one view. A view that lacks a component
/// cannot be rendered by the prepass.
pub struct ExtractedView {
    pub id: ViewId,
    pub camera: Option<ExtractedCamera>,
    pub prepass_phase: Option<RenderPhase>,
    pub depth: Option<ViewDepthTexture>,
    pub prepass_textures: Option<ViewPrepassTextures>,
}

/// What the node reads of the render world.
pub struct RenderWorld {
    pub views: Vec<ExtractedView>,
    /// The registry of GPU images, where the backend has set one up.
    pub gpu_images: Option<Vec<GpuImage>>,
    /// Number of draw functions registered for the prepass phase: the
    /// identifiers below it are known.
    pub draw_functions: u32,
}

/// Why the node could not run. Each of these is a wiring or lifecycle defect,
/// and the frame is not rendered.
#[derive(Clone, Copy, Debug, PartialEq, Eq, Structural)]
pub enum NodeRunError {
    /// The graph handed the node no view.
    MissingViewInput,
    /// The render world has no registry of GPU images.
    MissingTextureRegistry,
    /// The render world has no view of that identity.
    MissingView,
    MissingCamera,
    MissingPhase,
    MissingDepthTexture,
    MissingViewTextures,
    /// The registry holds no GPU image for the prepass target of the view.
    MissingTexture,
    /// A draw item names a draw function that is not registered.
    MissingDrawFunction,
}

/// What the node decides for a view.
pub enum PassPlan {
    /// Nothing is queued: no pass is begun and nothing is bound.
    Skip,
    /// One pass over the queued items.
    Pass {
        color: ColorAttachment,
        depth: DepthAttachment,
        viewport: Option<Viewport>,
        view: ViewId,
        items: Seq<Opaque3dPrepass>,
    },
}

/// Index of the first view with the given identity, from `start` on.
pub open spec fn first_view_from(views: Seq<ExtractedView>, id: ViewId, start: int) -> Option<int>
    decreases views.len() - start,
{
    if start < 0 || start >= views.len() {
        None
    } else if views[start].id == id {
        Some(start)
    } else {
        first_view_from(views, id, start + 1)
    }
}

/// Index of the first GPU image of the given texture, from `start` on.
pub open spec fn first_image_from(
    images: Seq<GpuImage>,
    handle: TextureHandle,
    start: int,
) -> Option<int>
    decreases images.len() - start,
{
    if start < 0 || start >= images.len() {
        None
    } else if images[start].handle == handle {
        Some(start)
    } else {
        first_image_from(images, handle, start + 1)
    }
}

/// Every item names a registered draw function.
pub open spec fn draw_functions_known(items: Seq<Opaque3dPrepass>, registered: u32) -> bool {
    forall|i: int| 0 <= i < items.len() ==> (#[trigger] items[i]).draw_function.0 < registered
}

/// The color attachment of the prepass: the target, cleared to black and
/// stored.
pub open spec fn prepass_color(image: GpuImage) -> ColorAttachment {
    ColorAttachment {
        target: image.handle,
        size: image.size,
        clear: ClearColor::Black,
        store: true,
    }
}

/// The depth attachment of the prepass: the depth buffer of the view,
/// cleared to the far plane and stored.
pub open spec fn prepass_depth(depth: ViewDepthTexture) -> DepthAttachment {
    DepthAttachment {
        target: depth.texture,
        size: depth.size,
        clear: ClearDepth::FarPlane,
        store: true,
    }
}

/// What the node decides, given the view that the graph hands it and the
/// render world.
///
/// The view and its four components are resolved first, and the registry of
/// GPU images must exist. A view with nothing queued is then skipped. Only a
/// view with queued items needs the GPU image of its target and the draw
/// functions of its items.
pub open spec fn plan(input: Option<ViewId>, world: RenderWorld) -> Result<PassPlan, NodeRunError> {
    if input.is_none() {
        Err(NodeRunError::MissingViewInput)
    } else if world.gpu_images.is_none() {
        Err(NodeRunError::MissingTextureRegistry)
    } else if first_view_from(world.views@, input.unwrap(), 0).is_none() {
        Err(NodeRunError::MissingView)
    } else {
        let view = world.views@[first_view_from(world.views@, input.unwrap(), 0).unwrap()];
        let images = world.gpu_images.unwrap()@;
        if view.camera.is_none() {
            Err(NodeRunError::MissingCamera)
        } else if view.prepass_phase.is_none() {
            Err(NodeRunError::MissingPhase)
        } else if view.depth.is_none() {
            Err(NodeRunError::MissingDepthTexture)
        } else if view.prepass_textures.is_none() {
            Err(NodeRunError::MissingViewTextures)
        } else if view.prepass_phase.unwrap().items@.len() == 0 {
            Ok(PassPlan::Skip)
        } else if first_image_from(images, view.prepass_textures.unwrap().normals_depth, 0).is_none() {
            Err(NodeRunError::MissingTexture)
        } else if !draw_functions_known(view.prepass_phase.unwrap().items@, world.draw_functions) {
            Err(NodeRunError::MissingDrawFunction)
        } else {
            let image = images[first_image_from(
                images,
                view.prepass_textures.unwrap().normals_depth,
                0,
            ).unwrap()];
            Ok(
                PassPlan::Pass {
                    color: prepass_color(image),
                    depth: prepass_depth(view.depth.unwrap()),
                    viewport: view.camera.unwrap().viewport,
                    view: view.id,
                    items: view.prepass_phase.unwrap().items@,
                },
            )
        }
    }
}

/// The draw commands of the items of a view, in the order of the items.
pub open spec fn draw_commands(view: ViewId, items: Seq<Opaque3dPrepass>) -> Seq<Command> {
    Seq::new(
        items.len(),
        |i: int|
            Command::Draw { draw_function: items[i].draw_function, view, entity: items[i].entity },
    )
}

/// The commands that a plan records: none for a skipped view; else the
/// beginning of the pass, the viewport where the camera declares one, the
/// draws, and the end of the pass.
pub open spec fn commands(plan: PassPlan) -> Seq<Command> {
    match plan {
        PassPlan::Skip => Seq::empty(),
        PassPlan::Pass { color, depth, viewport, view, items } => {
            let begin = seq![Command::BeginPass { color, depth }];
            let constrained = match viewport {
                Some(viewport) => begin.push(Command::SetViewport { viewport }),
                None => begin,
            };
            (constrained + draw_commands(view, items)).push(Command::EndPass)
        },
    }
}

/// The node of the render graph that writes the normals and depth of the
/// opaque geometry of a view into its prepass target.
///
/// The node keeps nothing from frame to frame but a cache of where it last
/// found a view; what it records never depends on the cache.
pub struct PrepassNode {
    cached: Option<(ViewId, usize)>,
}

impl PrepassNode {
    /// Name of the input slot through which the graph hands over the view.
    pub const IN_VIEW: &'static str = "view";

    /// The view that the cache holds, if any.
    pub closed spec fn cached_view(&self) -> Option<ViewId> {
        match self.cached {
            Some((id, _)) => Some(id),
            None => None,
        }
    }

    /// A node with an empty cache.
    pub fn new() -> (node: PrepassNode)
        ensures
            node.cached_view().is_none(),
    {
        PrepassNode { cached: None }
    }

    /// The input slots of the node: the view, as an entity.
    pub fn input(&self) -> (slots: Vec<SlotInfo>)
        ensures
            slots@.len() == 1,
            slots@[0]@ == (SlotModel { name: Self::IN_VIEW@, slot_type: SlotType::Entity }),
    {
        let mut slots: Vec<SlotInfo> = Vec::new();
        slots.push(SlotInfo::new(Self::IN_VIEW, SlotType::Entity));
        slots
    }

    /// Rebuilds the cache against the views that the render world holds now:
    /// it holds the first of them.
    pub fn update(&mut self, world: &RenderWorld)
        ensures
            final(self).cached_view() == (if world.views@.len() > 0 {
                Some(world.views@[0].id)
            } else {
                None
            }),
    {
        if world.views.len() > 0 {
            self.cached = Some((world.views[0].id, 0));
        } else {
            self.cached = None;
        }
    }

    /// Index of the first view with the given identity.
    fn find_view(&self, world: &RenderWorld, id: ViewId) -> (found: Option<usize>)
        ensures
            match found {
                Some(i) => i < world.views@.len() && first_view_from(world.views@, id, 0) == Some(
                    i as int,
                ),
                None => first_view_from(world.views@, id, 0).is_none(),
            },
    {
        match self.cached {
            Some((cached_id, index)) => {
                if index == 0 && cached_id.0 == id.0 && world.views.len() > 0 && world.views[0].id.0
                    == id.0 {
                    return Some(0);
                }
            },
            None => {},
        }
        let mut i: usize = 0;
        while i < world.views.len()
            invariant
                i <= world.views@.len(),
                first_view_from(world.views@, id, 0) == first_view_from(world.views@, id, i as int),
            decreases world.views@.len() - i,
        {
            if world.views[i].id.0 == id.0 {
                return Some(i);
            }
            i += 1;
        }
        None
    }

    /// Records the prepass of the view that the graph hands over.
    ///
    /// The commands of the plan are appended to the encoder. A view with
    /// nothing queued, and a run that fails, leave the encoder as it was: no
    /// pass is begun, nothing is bound and nothing is cleared.
    pub fn run(&self, input: Option<ViewId>, world: &RenderWorld, encoder: &mut CommandEncoder) -> (r:
        Result<(), NodeRunError>)
        ensures
            match plan(input, *world) {
                Ok(pass) => r == Ok::<(), NodeRunError>(()) && final(encoder)@ == old(encoder)@
                    + commands(pass),
                Err(e) => r == Err::<(), NodeRunError>(e) && final(encoder)@ == old(encoder)@,
            },
            plan(input, *world) == Ok::<PassPlan, NodeRunError>(PassPlan::Skip) ==> final(encoder)@ == old(encoder)@,
    {
        let id = match input {
            Some(id) => id,
            None => {
                return Err(NodeRunError::MissingViewInput);
            },
        };
        let images = match &world.gpu_images {
            Some(images) => images,
            None => {
                return Err(NodeRunError::MissingTextureRegistry);
            },
        };
        let index = match self.find_view(world, id) {
            Some(index) => index,
            None => {
                return Err(NodeRunError::MissingView);
            },
        };
        let view = &world.views[index];
        let camera = match view.camera {
            Some(camera) => camera,
            None => {
                return Err(NodeRunError::MissingCamera);
            },
        };
        let phase = match &view.prepass_phase {
            Some(phase) => phase,
            None => {
                return Err(NodeRunError::MissingPhase);
            },
        };
        let depth = match view.depth {
            Some(depth) => depth,
            None => {
                return Err(NodeRunError::MissingDepthTexture);
            },
        };
        let textures = match view.prepass_textures {
            Some(textures) => textures,
            None => {
                return Err(NodeRunError::MissingViewTextures);
            },
        };
        if phase.items.len() == 0 {
            return Ok(());
        }
        let image = match find_image(images, textures.normals_depth) {
            Some(at) => images[at],
            None => {
                return Err(NodeRunError::MissingTexture);
            },
        };
        if !all_draw_functions_known(&phase.items, world.draw_functions) {
            return Err(NodeRunError::MissingDrawFunction);
        }
        let color = ColorAttachment {
            target: image.handle,
            size: image.size,
            clear: ClearColor::Black,
            store: true,
        };
        let depth = DepthAttachment {
            target: depth.texture,
            size: depth.size,
            clear: ClearDepth::FarPlane,
            store: true,
        };
        encoder.record(Command::BeginPass { color, depth });
        match camera.viewport {
            Some(viewport) => {
                encoder.record(Command::SetViewport { viewport });
            },
            None => {},
        }
        let ghost head = encoder@;
        let ghost draws = draw_commands(view.id, phase.items@);
        let mut i: usize = 0;
        while i < phase.items.len()
            invariant
                i <= phase.items@.len(),
                draws == draw_commands(view.id, phase.items@),
                encoder@ == head + draws.take(i as int),
            decreases phase.items@.len() - i,
        {
            let item = phase.items[i];
            encoder.record(
                Command::Draw {
                    draw_function: item.draw_function,
                    view: view.id,
                    entity: item.entity,
                },
            );
            i += 1;
        }
        encoder.record(Command::EndPass);
        Ok(())
    }
}

/// Index of the first GPU image of the given texture.
fn find_image(images: &Vec<GpuImage>, handle: TextureHandle) -> (found: Option<usize>)
    ensures
        match found {
            Some(i) => i < images@.len() && first_image_from(images@, handle, 0) == Some(i as int),
            None => first_image_from(images@, handle, 0).is_none(),
        },
{
    let mut i: usize = 0;
    while i < images.len()
        invariant
            i <= images@.len(),
            first_image_from(images@, handle, 0) == first_image_from(images@, handle, i as int),
        decreases images@.len() - i,
    {
        if images[i].handle.0 == handle.0 {
            return Some(i);
        }
        i += 1;
    }
    None
}

/// Decides `draw_functions_known`.
fn all_draw_functions_known(items: &Vec<Opaque3dPrepass>, registered: u32) -> (known: bool)
    ensures
        known == draw_functions_known(items@, registered),
{
    let mut i: usize = 0;
    while i < items.len()
        invariant
            i <= items@.len(),
            forall|k: int| 0 <= k < i ==> (#[trigger] items@[k]).draw_function.0 < registered,
        decreases items@.len() - i,
    {
        if items[i].draw_function.0 >= registered {
            return false;
        }
        i += 1;
    }
    true
}

proof fn lemma_first_view_matches(views: Seq<ExtractedView>, id: ViewId, start: int)
    requires
        first_view_from(views, id, start) is Some,
    ensures
        start <= first_view_from(views, id, start).unwrap() < views.len(),
        views[first_view_from(views, id, start).unwrap()].id == id,
    decreases views.len() - start,
{
    if views[start].id != id {
        lemma_first_view_matches(views, id, start + 1);
    }
}

proof fn lemma_first_image_matches(images: Seq<GpuImage>, handle: TextureHandle, start: int)
    requires
        first_image_from(images, handle, start) is Some,
    ensures
        start <= first_image_from(images, handle, start).unwrap() < images.len(),
        images[first_image_from(images, handle, start).unwrap()].handle == handle,
    decreases images.len() - start,
{
    if images[start].handle != handle {
        lemma_first_image_matches(images, handle, start + 1);
    }
}

/// The pass that the node records for a view writes the prepass target of
/// that view, and nothing else: its one color attachment is the texture that
/// the view records, its depth attachment is the depth buffer of the view,
/// and its draws are the queued items of the view, each by its own draw
/// function.
pub proof fn lemma_pass_writes_the_target_of_its_view(input: Option<ViewId>, world: RenderWorld)
    requires
        plan(input, world) is Ok,
        plan(input, world)->Ok_0 is Pass,
    ensures
        ({
            let view = world.views@[first_view_from(world.views@, input.unwrap(), 0).unwrap()];
            let pass = plan(input, world)->Ok_0;
            &&& view.id == input.unwrap()
            &&& pass->view == view.id
            &&& pass->color.target == view.prepass_textures.unwrap().normals_depth
            &&& pass->depth.target == view.depth.unwrap().texture
            &&& pass->items == view.prepass_phase.unwrap().items@
            &&& pass->items.len() > 0
            &&& crate::command::pass_begins(commands(pass)) == 1
        }),
{
    let view = world.views@[first_view_from(world.views@, input.unwrap(), 0).unwrap()];
    let pass = plan(input, world)->Ok_0;
    lemma_first_view_matches(world.views@, input.unwrap(), 0);
    lemma_first_image_matches(
        world.gpu_images.unwrap()@,
        view.prepass_textures.unwrap().normals_depth,
        0,
    );
    lemma_one_pass(pass);
}

/// A recorded pass begins exactly once.
proof fn lemma_one_pass(pass: PassPlan)
    requires
        pass is Pass,
    ensures
        crate::command::pass_begins(commands(pass)) == 1,
{
    let begin = seq![Command::BeginPass { color: pass->color, depth: pass->depth }];
    let constrained = match pass->viewport {
        Some(viewport) => begin.push(Command::SetViewport { viewport }),
        None => begin,
    };
    let draws = draw_commands(pass->view, pass->items);
    assert(crate::command::pass_begins(Seq::<Command>::empty()) == 0);
    assert(begin.drop_last() =~= Seq::<Command>::empty());
    assert(crate::command::pass_begins(begin) == 1);
    if pass->viewport is Some {
        assert(constrained.drop_last() =~= begin);
    }
    assert(crate::command::pass_begins(constrained) == 1);
    lemma_draws_begin_nothing(constrained, draws, draws.len() as int);
    assert(draws.take(draws.len() as int) =~= draws);
    let body = constrained + draws;
    assert(body.push(Command::EndPass).drop_last() =~= body);
}

/// Draw commands after a command stream begin no pass.
proof fn lemma_draws_begin_nothing(head: Seq<Command>, draws: Seq<Command>, upto: int)
    requires
        0 <= upto <= draws.len(),
        forall|i: int| 0 <= i < draws.len() ==> (#[trigger] draws[i]) is Draw,
    ensures
        crate::command::pass_begins(head + draws.take(upto)) == crate::command::pass_begins(head),
    decreases upto,
{
    if upto == 0 {
        assert(head + draws.take(0) =~= head);
    } else {
        lemma_draws_begin_nothing(head, draws, upto - 1);
        let longer = head + draws.take(upto);
        assert(longer.drop_last() =~= head + draws.take(upto - 1));
        assert(longer.last() == draws[upto - 1]);
    }
}

/// A view with nothing queued begins no pass: the number of passes that the
/// command stream begins is what it was before the node ran.
pub proof fn lemma_empty_phase_begins_no_pass(
    input: Option<ViewId>,
    world: RenderWorld,
    before: Seq<Command>,
)
    requires
        plan(input, world) == Ok::<PassPlan, NodeRunError>(PassPlan::Skip),
    ensures
        before + commands(plan(input, world).unwrap()) == before,
        crate::command::pass_begins(before + commands(plan(input, world).unwrap()))
            == crate::command::pass_begins(before),
{
}

} // verus!
