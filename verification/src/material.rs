//! Materials that sample the prepass target, and the refresh that keeps their
//! bind groups from going stale.

use vstd::prelude::*;
use crate::size::PixelSize;
use crate::texture::{PrepassTexture, TextureHandle, TextureModel};

verus! {

/// Binding slot of the prepass texture in a material's resource table.
pub const PREPASS_TEXTURE_BINDING: u32 = 0;

/// Binding slot of the sampler that goes with the prepass texture.
pub const PREPASS_SAMPLER_BINDING: u32 = 1;

/// A surface material that may sample the prepass target.
#[derive(Clone, Copy, Debug, PartialEq, Eq)]
pub struct CustomMaterial {
    pub depth_normal_prepass_texture: Option<TextureHandle>,
}

impl CustomMaterial {
    /// The material samples the texture behind `handle`.
    pub open spec fn samples(self, handle: TextureHandle) -> bool {
        self.depth_normal_prepass_texture == Some(handle)
    }

    pub fn new(texture: Option<TextureHandle>) -> (material: CustomMaterial)
        ensures
            material.depth_normal_prepass_texture == texture,
    {
        CustomMaterial { depth_normal_prepass_texture: texture }
    }

    /// Path of the fragment shader that reads the two binding slots.
    pub fn fragment_shader() -> (path: &'static str)
        ensures
            path@ == "shaders/custom_material.wgsl"@,
    {
        "shaders/custom_material.wgsl"
    }

    /// Decides `samples`.
    pub fn is_bound_to(&self, handle: TextureHandle) -> (bound: bool)
        ensures
            bound == self.samples(handle),
    {
        match self.depth_normal_prepass_texture {
            Some(own) => own.0 == handle.0,
            None => false,
        }
    }
}

/// Notification that the storage behind a texture has changed.
#[derive(Clone, Copy, Debug, PartialEq, Eq, Structural)]
pub enum TextureEvent {
    Modified { handle: TextureHandle },
}

impl TextureEvent {
    pub open spec fn handle(self) -> TextureHandle {
        match self {
            TextureEvent::Modified { handle } => handle,
        }
    }

    pub fn texture(&self) -> (handle: TextureHandle)
        ensures
            handle == self.handle(),
    {
        match self {
            TextureEvent::Modified { handle } => *handle,
        }
    }
}

/// Some event in `events` is about the texture behind `handle`.
pub open spec fn mentions(events: Seq<TextureEvent>, handle: TextureHandle) -> bool {
    exists|j: int| 0 <= j < events.len() && (#[trigger] events[j]).handle() == handle
}

/// What a bind group holds of the texture it was built against.
pub struct BindGroupModel {
    pub texture: TextureHandle,
    pub size: PixelSize,
    /// Which allocation of the texture the bind group points at.
    pub allocation: nat,
}

impl BindGroupModel {
    /// The bind group as built against `texture`.
    pub open spec fn of(texture: TextureModel) -> BindGroupModel {
        BindGroupModel {
            texture: texture.handle,
            size: texture.size,
            allocation: texture.allocations,
        }
    }
}

/// The GPU-side binding table of a material, as built against one allocation of
/// the texture it samples.
#[derive(Clone, Copy)]
pub struct BindGroup {
    texture: TextureHandle,
    size: PixelSize,
    allocation: Ghost<nat>,
}

impl View for BindGroup {
    type V = BindGroupModel;

    closed spec fn view(&self) -> BindGroupModel {
        BindGroupModel { texture: self.texture, size: self.size, allocation: self.allocation@ }
    }
}

impl BindGroup {
    /// Builds the bind group against the current allocation of `texture`.
    pub fn build(texture: &PrepassTexture) -> (group: BindGroup)
        ensures
            group@ == BindGroupModel::of(texture@),
    {
        BindGroup {
            texture: texture.handle(),
            size: texture.size(),
            allocation: Ghost(texture@.allocations),
        }
    }

    pub fn texture(&self) -> (handle: TextureHandle)
        ensures
            handle == self@.texture,
    {
        self.texture
    }

    pub fn size(&self) -> (size: PixelSize)
        ensures
            size == self@.size,
    {
        self.size
    }
}

/// A material instance as the rendering backend holds it.
pub struct BindingModel {
    pub material: CustomMaterial,
    /// The bind group must be rebuilt before the material is drawn.
    pub dirty: bool,
    pub bind_group: Option<BindGroupModel>,
}

impl BindingModel {
    /// A material that the backend has not prepared yet.
    pub open spec fn fresh(material: CustomMaterial) -> BindingModel {
        BindingModel { material, dirty: true, bind_group: None }
    }

    /// The binding after the events of a frame: dirty if it was, or if one of
    /// the events is about the texture that it samples.
    pub open spec fn refreshed(self, events: Seq<TextureEvent>) -> BindingModel {
        match self.material.depth_normal_prepass_texture {
            Some(handle) if mentions(events, handle) => BindingModel { dirty: true, ..self },
            _ => self,
        }
    }

    /// The binding after the backend has prepared it against `texture`: a
    /// dirty binding that samples the texture gets a bind group built against
    /// its current allocation; any other is left alone.
    pub open spec fn prepared(self, texture: TextureModel) -> BindingModel {
        if self.dirty && self.material.samples(texture.handle) {
            BindingModel { dirty: false, bind_group: Some(BindGroupModel::of(texture)), ..self }
        } else {
            self
        }
    }

    /// The bind group points at the current allocation of `texture`.
    pub open spec fn current(self, texture: TextureModel) -> bool {
        self.bind_group == Some(BindGroupModel::of(texture))
    }

    /// The binding cannot be drawn with a stale view of `texture`: if it
    /// samples the texture, it is marked dirty or its bind group is current.
    pub open spec fn tracks(self, texture: TextureModel) -> bool {
        self.material.samples(texture.handle) ==> self.dirty || self.current(texture)
    }
}

/// A material instance together with the state of its bind group.
#[derive(Clone, Copy)]
pub struct MaterialBinding {
    material: CustomMaterial,
    dirty: bool,
    bind_group: Option<BindGroup>,
}

impl View for MaterialBinding {
    type V = BindingModel;

    closed spec fn view(&self) -> BindingModel {
        BindingModel {
            material: self.material,
            dirty: self.dirty,
            bind_group: match self.bind_group {
                Some(group) => Some(group@),
                None => None,
            },
        }
    }
}

impl MaterialBinding {
    pub fn new(material: CustomMaterial) -> (binding: MaterialBinding)
        ensures
            binding@ == BindingModel::fresh(material),
    {
        MaterialBinding { material, dirty: true, bind_group: None }
    }

    pub fn material(&self) -> (material: CustomMaterial)
        ensures
            material == self@.material,
    {
        self.material
    }

    pub fn is_dirty(&self) -> (dirty: bool)
        ensures
            dirty == self@.dirty,
    {
        self.dirty
    }

    /// The bind group that a draw of the material would use now.
    pub fn bind_group(&self) -> (group: Option<BindGroup>)
        ensures
            match group {
                Some(g) => self@.bind_group == Some(g@),
                None => self@.bind_group.is_none(),
            },
    {
        self.bind_group
    }

    /// Marks the binding dirty if one of the events is about its texture.
    pub fn refresh(&mut self, events: &Vec<TextureEvent>)
        ensures
            final(self)@ == old(self)@.refreshed(events@),
    {
        let hit = match self.material.depth_normal_prepass_texture {
            Some(handle) => any_mentions(events, handle),
            None => false,
        };
        if hit {
            self.dirty = true;
        }
    }

    /// Rebuilds the bind group against `texture` where the binding is dirty
    /// and samples it.
    pub fn prepare(&mut self, texture: &PrepassTexture)
        ensures
            final(self)@ == old(self)@.prepared(texture@),
    {
        if self.dirty && self.material.is_bound_to(texture.handle()) {
            self.bind_group = Some(BindGroup::build(texture));
            self.dirty = false;
        }
    }
}

/// Decides `mentions`.
pub fn any_mentions(events: &Vec<TextureEvent>, handle: TextureHandle) -> (found: bool)
    ensures
        found == mentions(events@, handle),
{
    let mut j: usize = 0;
    while j < events.len()
        invariant
            j <= events.len(),
            forall|k: int| 0 <= k < j ==> (#[trigger] events@[k]).handle() != handle,
        decreases events.len() - j,
    {
        if events[j].texture().0 == handle.0 {
            return true;
        }
        j += 1;
    }
    false
}

/// Marks as dirty every material that samples a texture named by an event.
pub struct MaterialRefresher;

impl MaterialRefresher {
    /// Every binding is refreshed by the events; none is added or removed.
    pub fn run(materials: &mut Vec<MaterialBinding>, events: &Vec<TextureEvent>)
        ensures
            final(materials)@.len() == old(materials)@.len(),
            forall|i: int|
                0 <= i < old(materials)@.len() ==> (#[trigger] final(materials)@[i])@ == old(materials)@[i]@.refreshed(events@),
    {
        let n = materials.len();
        let mut i: usize = 0;
        while i < n
            invariant
                i <= n,
                n == materials@.len(),
                n == old(materials)@.len(),
                forall|k: int|
                    0 <= k < i ==> (#[trigger] materials@[k])@ == old(materials)@[k]@.refreshed(
                        events@,
                    ),
                forall|k: int| i <= k < n ==> #[trigger] materials@[k] == old(materials)@[k],
            decreases n - i,
        {
            let mut binding = materials[i];
            binding.refresh(events);
            materials.set(i, binding);
            i += 1;
        }
    }
}

} // verus!
