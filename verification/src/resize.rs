//! Keeping the prepass target at the size of the output surface.

use vstd::prelude::*;
use crate::material::TextureEvent;
use crate::size::PixelSize;
use crate::texture::{PrepassTexture, TextureError, TextureModel, PREPASS_TEXEL_BYTES};
use crate::view::ViewPrepassTextures;

verus! {

/// Notification that the output surface was resized. The size it carries may
/// be stale, or in logical rather than physical pixels: nothing reads it.
#[derive(Clone, Copy, Debug, PartialEq, Eq, Structural)]
pub struct ResizeNotification {
    pub reported: PixelSize,
}

/// What a run of the synchronizer did.
#[derive(Clone, Copy, Debug, PartialEq, Eq, Structural)]
pub enum SyncOutcome {
    /// Nothing was touched.
    Unchanged,
    /// The texture was reallocated once, from one size to another.
    Resized { from: PixelSize, to: PixelSize },
}

/// The state that the synchronizer works on.
pub struct SyncModel {
    pub texture: TextureModel,
    pub view: ViewPrepassTextures,
    /// The texture events emitted so far and not yet consumed.
    pub events: Seq<TextureEvent>,
}

impl SyncModel {
    /// A run has work to do: a resize was notified, and the surface is not at
    /// the size of the texture.
    pub open spec fn stale(
        self,
        notifications: Seq<ResizeNotification>,
        surface: PixelSize,
    ) -> bool {
        notifications.len() > 0 && surface != self.texture.size
    }

    /// What a run returns.
    pub open spec fn outcome(
        self,
        notifications: Seq<ResizeNotification>,
        surface: PixelSize,
    ) -> Result<SyncOutcome, TextureError> {
        if !self.stale(notifications, surface) {
            Ok(SyncOutcome::Unchanged)
        } else if surface.allocatable(PREPASS_TEXEL_BYTES as nat) {
            Ok(SyncOutcome::Resized { from: self.texture.size, to: surface })
        } else {
            Err(TextureError::TooLarge)
        }
    }

    /// The state after a run: where the run resizes, the texture is
    /// reallocated at the size of the surface, the view records that size,
    /// and one event names the texture; otherwise nothing changes.
    pub open spec fn synchronized(
        self,
        notifications: Seq<ResizeNotification>,
        surface: PixelSize,
    ) -> SyncModel {
        if self.outcome(notifications, surface) is Ok && self.stale(notifications, surface) {
            SyncModel {
                texture: self.texture.resized(surface),
                view: ViewPrepassTextures { size: surface, ..self.view },
                events: self.events.push(TextureEvent::Modified { handle: self.texture.handle }),
            }
        } else {
            self
        }
    }
}

/// The frame-start check that resizes the prepass target after the surface.
pub struct ResizeSynchronizer;

impl ResizeSynchronizer {
    /// Runs the check for one frame. `surface` is the physical size of the
    /// surface as queried now; the sizes in `notifications` are ignored.
    ///
    /// Fails, and changes nothing, exactly when a resize is due and a target
    /// of the surface's size cannot be held in memory.
    pub fn run(
        texture: &mut PrepassTexture,
        view: &mut ViewPrepassTextures,
        events: &mut Vec<TextureEvent>,
        notifications: &Vec<ResizeNotification>,
        surface: PixelSize,
    ) -> (r: Result<SyncOutcome, TextureError>)
        requires
            old(texture).wf(),
        ensures
            final(texture).wf(),
            ({
                let before = SyncModel {
                    texture: old(texture)@,
                    view: *old(view),
                    events: old(events)@,
                };
                let after = SyncModel {
                    texture: final(texture)@,
                    view: *final(view),
                    events: final(events)@,
                };
                &&& r == before.outcome(notifications@, surface)
                &&& after == before.synchronized(notifications@, surface)
            }),
            !(r is Ok && r->Ok_0 is Resized) ==> *final(texture) == *old(texture),
    {
        if notifications.len() == 0 {
            return Ok(SyncOutcome::Unchanged);
        }
        let from = texture.size();
        if surface.width == from.width && surface.height == from.height {
            return Ok(SyncOutcome::Unchanged);
        }
        match texture.resize(surface) {
            Ok(()) => {},
            Err(e) => {
                return Err(e);
            },
        }
        view.size = surface;
        events.push(TextureEvent::Modified { handle: texture.handle() });
        Ok(SyncOutcome::Resized { from, to: surface })
    }
}

/// However many resize notifications arrive before the check, and whatever
/// sizes they carry, the check does the same: where it succeeds, the texture
/// is at the size of the surface as queried, after one reallocation if that
/// size is new and after none if it is not.
pub proof fn lemma_notifications_coalesce(
    state: SyncModel,
    first: Seq<ResizeNotification>,
    second: Seq<ResizeNotification>,
    surface: PixelSize,
)
    requires
        first.len() > 0,
        second.len() > 0,
    ensures
        state.outcome(first, surface) == state.outcome(second, surface),
        state.synchronized(first, surface) == state.synchronized(second, surface),
        state.outcome(first, surface) is Ok ==> {
            let after = state.synchronized(first, surface);
            &&& after.texture.size == surface
            &&& surface != state.texture.size ==> {
                &&& after.texture.allocations == state.texture.allocations + 1
                &&& after.view.size == surface
                &&& after.events == state.events.push(
                    TextureEvent::Modified { handle: state.texture.handle },
                )
            }
            &&& surface == state.texture.size ==> after == state
        },
{
}

/// A second check in the same frame finds nothing to do.
pub proof fn lemma_second_run_is_idle(
    state: SyncModel,
    first: Seq<ResizeNotification>,
    second: Seq<ResizeNotification>,
    surface: PixelSize,
)
    requires
        state.outcome(first, surface) is Ok,
        first.len() > 0,
    ensures
        state.synchronized(first, surface).outcome(second, surface) == Ok::<
            SyncOutcome,
            TextureError,
        >(SyncOutcome::Unchanged),
        state.synchronized(first, surface).synchronized(second, surface) == state.synchronized(
            first,
            surface,
        ),
{
}

} // verus!
