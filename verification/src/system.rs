//! The prepass subsystem as a whole: the target texture, the record of the
//! view that owns it, and the materials that sample it, taken through the
//! stages of frame preparation in their fixed order.

use vstd::prelude::*;
use crate::command::{Command, CommandEncoder};
use crate::material::{
    BindGroup, BindGroupModel, BindingModel, CustomMaterial, MaterialBinding, MaterialRefresher,
    TextureEvent,
};
use crate::node::{commands, plan, NodeRunError, PassPlan, PrepassNode, RenderWorld};
use crate::resize::{ResizeNotification, ResizeSynchronizer, SyncModel, SyncOutcome};
use crate::size::PixelSize;
use crate::texture::{
    ContentState, PrepassTexture, TextureError, TextureHandle, TextureModel, PREPASS_TEXEL_BYTES,
};
use crate::view::{ViewId, ViewPrepassTextures};

verus! {

/// Why a material cannot be drawn.
#[derive(Clone, Copy, Debug, PartialEq, Eq, Structural)]
pub enum DrawError {
    /// There is no material at that index.
    NoSuchMaterial,
    /// The material samples the prepass target and its bind group has not
    /// been rebuilt since it was marked dirty.
    StaleBinding,
}

/// The subsystem without the texels of its texture.
pub struct SystemModel {
    pub texture: TextureModel,
    pub view: ViewPrepassTextures,
    pub materials: Seq<BindingModel>,
}

impl SystemModel {
    /// The view records the texture at its size, and no material can be drawn
    /// with a stale view of it.
    pub open spec fn wf(self) -> bool {
        &&& self.view.matches(self.texture)
        &&& self.texture.size.allocatable(PREPASS_TEXEL_BYTES as nat)
        &&& forall|i: int|
            0 <= i < self.materials.len() ==> (#[trigger] self.materials[i]).tracks(self.texture)
    }

    /// The subsystem right after setup, with no material yet.
    pub open spec fn initial(
        handle: TextureHandle,
        surface: PixelSize,
        sample_count: u32,
    ) -> SystemModel {
        SystemModel {
            texture: TextureModel::created(handle, surface, sample_count),
            view: ViewPrepassTextures { normals_depth: handle, size: surface },
            materials: Seq::empty(),
        }
    }

    /// The subsystem with one more material, not yet prepared.
    pub open spec fn with_material(self, material: CustomMaterial) -> SystemModel {
        SystemModel { materials: self.materials.push(BindingModel::fresh(material)), ..self }
    }

    /// What the resize check sees of the subsystem at the start of a frame.
    pub open spec fn sync_state(self) -> SyncModel {
        SyncModel { texture: self.texture, view: self.view, events: Seq::empty() }
    }

    /// The subsystem after the frame-start stage: the resize check has run,
    /// and every material has been refreshed by the events that it emitted.
    pub open spec fn resized(
        self,
        notifications: Seq<ResizeNotification>,
        surface: PixelSize,
    ) -> SystemModel {
        let synced = self.sync_state().synchronized(notifications, surface);
        SystemModel {
            texture: synced.texture,
            view: synced.view,
            materials: Seq::new(
                self.materials.len(),
                |i: int| self.materials[i].refreshed(synced.events),
            ),
        }
    }

    /// The subsystem after the backend has prepared every material.
    pub open spec fn prepared(self) -> SystemModel {
        SystemModel {
            materials: Seq::new(
                self.materials.len(),
                |i: int| self.materials[i].prepared(self.texture),
            ),
            ..self
        }
    }

    /// The subsystem with the contents of its texture in the given state.
    pub open spec fn with_content(self, content: ContentState) -> SystemModel {
        SystemModel { texture: self.texture.with_content(content), ..self }
    }

    /// The subsystem after the prepass node has run for a view: the contents
    /// of the texture are written where the node recorded a pass into it, and
    /// nothing has changed where it recorded none or failed.
    pub open spec fn after_prepass(self, input: Option<ViewId>, world: RenderWorld) -> SystemModel {
        match plan(input, world) {
            Ok(PassPlan::Pass { color, .. }) => if color.target == self.texture.handle {
                self.with_content(ContentState::Written)
            } else {
                self
            },
            _ => self,
        }
    }

    /// What a draw of the material at `index` gets: no bind group where the
    /// material does not sample the texture, its bind group where it does.
    pub open spec fn draw(self, index: int) -> Result<Option<BindGroupModel>, DrawError> {
        if !(0 <= index < self.materials.len()) {
            Err(DrawError::NoSuchMaterial)
        } else if !self.materials[index].material.samples(self.texture.handle) {
            Ok(None)
        } else if self.materials[index].dirty {
            Err(DrawError::StaleBinding)
        } else {
            Ok(self.materials[index].bind_group)
        }
    }
}

/// The prepass subsystem of one view.
pub struct PrepassSystem {
    texture: PrepassTexture,
    view: ViewPrepassTextures,
    materials: Vec<MaterialBinding>,
}

impl View for PrepassSystem {
    type V = SystemModel;

    closed spec fn view(&self) -> SystemModel {
        SystemModel {
            texture: self.texture@,
            view: self.view,
            materials: Seq::new(self.materials@.len(), |i: int| self.materials@[i]@),
        }
    }
}

impl PrepassSystem {
    /// The texture of the subsystem, as a specification value.
    pub closed spec fn texture_spec(&self) -> PrepassTexture {
        self.texture
    }

    pub open spec fn wf(&self) -> bool {
        &&& self.texture_spec().wf()
        &&& self.texture_spec()@ == self@.texture
        &&& self@.wf()
    }

    /// Creates the texture at the size of the surface and the record of the
    /// view that owns it.
    ///
    /// Fails exactly when a target of that size cannot be held in memory.
    pub fn setup(handle: TextureHandle, surface: PixelSize, sample_count: u32) -> (r: Result<
        PrepassSystem,
        TextureError,
    >)
        ensures
            match r {
                Ok(system) => {
                    &&& surface.allocatable(PREPASS_TEXEL_BYTES as nat)
                    &&& system.wf()
                    &&& system@ == SystemModel::initial(handle, surface, sample_count)
                },
                Err(e) => {
                    &&& e == TextureError::TooLarge
                    &&& !surface.allocatable(PREPASS_TEXEL_BYTES as nat)
                },
            },
    {
        match PrepassTexture::create(handle, surface, sample_count) {
            Ok(texture) => {
                let view = ViewPrepassTextures::new(handle, surface);
                let system = PrepassSystem { texture, view, materials: Vec::new() };
                assert(system@.materials =~= Seq::empty());
                Ok(system)
            },
            Err(e) => Err(e),
        }
    }

    /// Registers a material. It is dirty until the backend has prepared it.
    pub fn add_material(&mut self, material: CustomMaterial) -> (index: usize)
        requires
            old(self).wf(),
        ensures
            final(self).wf(),
            final(self)@ == old(self)@.with_material(material),
            final(self).texture_spec() == old(self).texture_spec(),
            index == old(self)@.materials.len(),
    {
        let index = self.materials.len();
        self.materials.push(MaterialBinding::new(material));
        assert(self@.materials =~= old(self)@.materials.push(BindingModel::fresh(material)));
        index
    }

    /// The frame-start stage: runs the resize check against the physical size
    /// of the surface as queried now, then refreshes the materials with the
    /// events that the check emitted.
    ///
    /// Fails, and changes nothing, exactly when a resize is due and a target
    /// of the surface's size cannot be held in memory.
    pub fn window_resized(
        &mut self,
        notifications: &Vec<ResizeNotification>,
        surface: PixelSize,
    ) -> (r: Result<SyncOutcome, TextureError>)
        requires
            old(self).wf(),
        ensures
            final(self).wf(),
            r == old(self)@.sync_state().outcome(notifications@, surface),
            final(self)@ == old(self)@.resized(notifications@, surface),
            !(r is Ok && r->Ok_0 is Resized) ==> final(self).texture_spec() == old(self).texture_spec(),
    {
        let mut events: Vec<TextureEvent> = Vec::new();
        let r = ResizeSynchronizer::run(
            &mut self.texture,
            &mut self.view,
            &mut events,
            notifications,
            surface,
        );
        MaterialRefresher::run(&mut self.materials, &events);
        proof {
            let before = old(self)@;
            let synced = before.sync_state().synchronized(notifications@, surface);
            assert(events@ =~= synced.events);
            assert(self@.materials =~= before.resized(notifications@, surface).materials);
            lemma_resize_keeps_wf(before, notifications@, surface);
        }
        r
    }

    /// What the rendering backend does before draws are recorded: rebuilds
    /// the bind group of every dirty material that samples the texture.
    pub fn prepare_materials(&mut self)
        requires
            old(self).wf(),
        ensures
            final(self).wf(),
            final(self)@ == old(self)@.prepared(),
            final(self).texture_spec() == old(self).texture_spec(),
    {
        let n = self.materials.len();
        let mut i: usize = 0;
        while i < n
            invariant
                i <= n,
                n == self.materials@.len(),
                n == old(self).materials@.len(),
                self.texture == old(self).texture,
                self.view == old(self).view,
                forall|k: int|
                    0 <= k < i ==> (#[trigger] self.materials@[k])@ == old(self).materials@[k]@.prepared(self.texture@),
                forall|k: int|
                    i <= k < n ==> #[trigger] self.materials@[k] == old(self).materials@[k],
            decreases n - i,
        {
            let mut binding = self.materials[i];
            binding.prepare(&self.texture);
            self.materials.set(i, binding);
            i += 1;
        }
        proof {
            assert(self@.materials =~= old(self)@.prepared().materials);
            lemma_prepare_keeps_wf(old(self)@);
        }
    }

    /// The bind group that a draw of the material at `index` uses.
    ///
    /// A bind group that is handed out was built against the current
    /// allocation of the texture.
    pub fn bind_group_for_draw(&self, index: usize) -> (r: Result<Option<BindGroup>, DrawError>)
        requires
            self.wf(),
        ensures
            match r {
                Ok(Some(group)) => {
                    &&& self@.draw(index as int) == Ok::<Option<BindGroupModel>, DrawError>(
                        Some(group@),
                    )
                    &&& group@ == BindGroupModel::of(self@.texture)
                },
                Ok(None) => self@.draw(index as int) == Ok::<Option<BindGroupModel>, DrawError>(
                    None,
                ),
                Err(e) => self@.draw(index as int) == Err::<Option<BindGroupModel>, DrawError>(e),
            },
    {
        if index >= self.materials.len() {
            return Err(DrawError::NoSuchMaterial);
        }
        let binding = self.materials[index];
        assert(binding@ == self@.materials[index as int]);
        if !binding.material().is_bound_to(self.texture.handle()) {
            return Ok(None);
        }
        if binding.is_dirty() {
            return Err(DrawError::StaleBinding);
        }
        assert(self@.materials[index as int].tracks(self@.texture));
        Ok(binding.bind_group())
    }

    /// Marks the contents of the texture undefined, as they are when a frame
    /// begins.
    pub fn begin_frame(&mut self)
        requires
            old(self).wf(),
        ensures
            final(self).wf(),
            final(self)@ == old(self)@.with_content(ContentState::Undefined),
    {
        self.texture.begin_frame();
        proof {
            lemma_content_keeps_wf(old(self)@, ContentState::Undefined);
        }
    }

    /// Records that the prepass of this frame has written the texture.
    pub fn prepass_written(&mut self)
        requires
            old(self).wf(),
        ensures
            final(self).wf(),
            final(self)@ == old(self)@.with_content(ContentState::Written),
    {
        self.texture.mark_written();
        proof {
            lemma_content_keeps_wf(old(self)@, ContentState::Written);
        }
    }

    /// Runs the prepass node for a view and keeps track of the contents of
    /// the texture: they are written once the node has recorded a pass into
    /// the texture, and not before.
    pub fn run_prepass(
        &mut self,
        node: &PrepassNode,
        input: Option<ViewId>,
        world: &RenderWorld,
        encoder: &mut CommandEncoder,
    ) -> (r: Result<(), NodeRunError>)
        requires
            old(self).wf(),
        ensures
            final(self).wf(),
            final(self)@ == old(self)@.after_prepass(input, *world),
            match plan(input, *world) {
                Ok(pass) => r == Ok::<(), NodeRunError>(()) && final(encoder)@ == old(encoder)@
                    + commands(pass),
                Err(e) => r == Err::<(), NodeRunError>(e) && final(encoder)@ == old(encoder)@,
            },
    {
        let start = encoder.len();
        let r = node.run(input, world, encoder);
        proof {
            match plan(input, *world) {
                Ok(PassPlan::Pass { color, depth, viewport, view, items }) => {
                    let pass = PassPlan::Pass { color, depth, viewport, view, items };
                    assert(commands(pass)[0] == Command::BeginPass { color, depth });
                    assert(encoder@[start as int] == commands(pass)[0]);
                },
                Ok(PassPlan::Skip) => {
                    assert(commands(PassPlan::Skip).len() == 0);
                },
                Err(_) => {},
            }
        }
        match encoder.get(start) {
            Some(Command::BeginPass { color, .. }) => {
                if color.target.0 == self.texture.handle().0 {
                    self.prepass_written();
                }
            },
            _ => {},
        }
        r
    }

    pub fn texture(&self) -> (texture: &PrepassTexture)
        ensures
            *texture == self.texture_spec(),
    {
        &self.texture
    }

    pub fn view_textures(&self) -> (view: ViewPrepassTextures)
        ensures
            view == self@.view,
    {
        self.view
    }

    pub fn material_count(&self) -> (n: usize)
        ensures
            n == self@.materials.len(),
    {
        self.materials.len()
    }

    /// The material at `index`, where there is one.
    pub fn material(&self, index: usize) -> (binding: Option<MaterialBinding>)
        ensures
            match binding {
                Some(b) => index < self@.materials.len() && b@ == self@.materials[index as int],
                None => index >= self@.materials.len(),
            },
    {
        if index < self.materials.len() {
            Some(self.materials[index])
        } else {
            None
        }
    }

    /// The indices of the dirty materials, in ascending order.
    pub fn dirty_materials(&self) -> (dirty: Vec<usize>)
        ensures
            forall|k: int|
                0 <= k < dirty@.len() ==> (#[trigger] dirty@[k]) < self@.materials.len()
                    && self@.materials[dirty@[k] as int].dirty,
            forall|i: int|
                0 <= i < self@.materials.len() && (#[trigger] self@.materials[i]).dirty
                    ==> dirty@.contains(i as usize),
            forall|j: int, k: int| 0 <= j < k < dirty@.len() ==> dirty@[j] < dirty@[k],
    {
        let mut dirty: Vec<usize> = Vec::new();
        let n = self.materials.len();
        let mut i: usize = 0;
        while i < n
            invariant
                i <= n,
                n == self.materials@.len(),
                forall|k: int|
                    0 <= k < dirty@.len() ==> (#[trigger] dirty@[k]) < i
                        && self@.materials[dirty@[k] as int].dirty,
                forall|m: int|
                    0 <= m < i && (#[trigger] self@.materials[m]).dirty ==> dirty@.contains(
                        m as usize,
                    ),
                forall|j: int, k: int| 0 <= j < k < dirty@.len() ==> dirty@[j] < dirty@[k],
            decreases n - i,
        {
            if self.materials[i].is_dirty() {
                let ghost before = dirty@;
                dirty.push(i);
                proof {
                    assert(dirty@[before.len() as int] == i);
                    assert forall|m: int|
                        0 <= m < i + 1 && (#[trigger] self@.materials[m]).dirty implies dirty@.contains(
                        m as usize,
                    ) by {
                        if m < i {
                            assert(before.contains(m as usize));
                            let w = choose|w: int| 0 <= w < before.len() && before[w] == m as usize;
                            assert(dirty@[w] == m as usize);
                        } else {
                            assert(dirty@[before.len() as int] == m as usize);
                        }
                    }
                }
            }
            i += 1;
        }
        dirty
    }
}

/// Changing what is known of the contents leaves every invariant in place.
pub proof fn lemma_content_keeps_wf(state: SystemModel, content: ContentState)
    requires
        state.wf(),
    ensures
        state.with_content(content).wf(),
{
    let after = state.with_content(content);
    assert forall|i: int| 0 <= i < after.materials.len() implies (
    #[trigger] after.materials[i]).tracks(after.texture) by {
        assert(state.materials[i].tracks(state.texture));
    }
}

/// After the frame-start stage the view still records the texture at its
/// size, and every material that samples the texture is dirty or has a bind
/// group that points at its current allocation.
pub proof fn lemma_resize_keeps_wf(
    state: SystemModel,
    notifications: Seq<ResizeNotification>,
    surface: PixelSize,
)
    requires
        state.wf(),
    ensures
        state.resized(notifications, surface).wf(),
{
    let synced = state.sync_state().synchronized(notifications, surface);
    let after = state.resized(notifications, surface);
    assert forall|i: int| 0 <= i < after.materials.len() implies (
    #[trigger] after.materials[i]).tracks(after.texture) by {
        let m = state.materials[i];
        assert(m.tracks(state.texture));
        if synced.texture != state.texture {
            let event = TextureEvent::Modified { handle: state.texture.handle };
            assert(synced.events[0] == event);
            if m.material.samples(state.texture.handle) {
                assert(crate::material::mentions(synced.events, state.texture.handle));
            }
        }
    }
}

/// Preparing the materials leaves every invariant in place.
pub proof fn lemma_prepare_keeps_wf(state: SystemModel)
    requires
        state.wf(),
    ensures
        state.prepared().wf(),
{
    let after = state.prepared();
    assert forall|i: int| 0 <= i < after.materials.len() implies (
    #[trigger] after.materials[i]).tracks(after.texture) by {
        assert(state.materials[i].tracks(state.texture));
    }
}

/// After the resize check of a frame has run, the texture and the record of
/// the view are at the physical size of the surface, provided that every
/// change of the surface's size is notified: either a notification is
/// pending, or the surface still has the size of the texture.
pub proof fn lemma_size_follows_surface(
    state: SystemModel,
    notifications: Seq<ResizeNotification>,
    surface: PixelSize,
)
    requires
        state.wf(),
        notifications.len() > 0 || surface == state.texture.size,
    ensures
        state.sync_state().outcome(notifications, surface) is Ok ==> {
            &&& state.resized(notifications, surface).texture.size == surface
            &&& state.resized(notifications, surface).view.size == surface
        },
        state.sync_state().outcome(notifications, surface) is Ok <==> surface.allocatable(
            PREPASS_TEXEL_BYTES as nat,
        ),
{
}

/// Once the frame-start stage and the backend's preparation have run, in that
/// order, a draw of any material that samples the texture uses a bind group
/// built against the texture as the resize check left it: never one from
/// before the resize.
pub proof fn lemma_draws_see_resized_texture(
    state: SystemModel,
    notifications: Seq<ResizeNotification>,
    surface: PixelSize,
    index: int,
)
    requires
        state.wf(),
        0 <= index < state.materials.len(),
        state.materials[index].material.samples(state.texture.handle),
    ensures
        ({
            let ready = state.resized(notifications, surface).prepared();
            &&& ready.wf()
            &&& ready.draw(index) == Ok::<Option<BindGroupModel>, DrawError>(
                Some(BindGroupModel::of(state.resized(notifications, surface).texture)),
            )
        }),
{
    lemma_resize_keeps_wf(state, notifications, surface);
    let resized = state.resized(notifications, surface);
    lemma_prepare_keeps_wf(resized);
    assert(resized.materials[index].tracks(resized.texture));
}

/// A frame without a resize leaves a prepared subsystem as it is: bind groups
/// stay current in every later frame until the next resize.
pub proof fn lemma_quiet_frame_changes_nothing(
    state: SystemModel,
    notifications: Seq<ResizeNotification>,
    surface: PixelSize,
)
    requires
        state.wf(),
        !state.sync_state().stale(notifications, surface),
    ensures
        state.resized(notifications, surface) == state,
{
    let after = state.resized(notifications, surface);
    assert(after.materials =~= state.materials) by {
        assert forall|i: int| 0 <= i < state.materials.len() implies after.materials[i]
            == state.materials[i] by {
            let events = Seq::<TextureEvent>::empty();
            assert(forall|h: TextureHandle| !crate::material::mentions(events, h));
        }
    }
}

} // verus!
