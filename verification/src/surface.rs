//! The color-management state of one surface: the double-buffered image description and the
//! bookkeeping of the protocol objects that refer to the surface.

use vstd::prelude::*;

use crate::description::ImageDescription;
use crate::lookup::{remove_all, restrict, restricted, without};
use crate::wire::RenderIntent;

verus! {

/// Double-buffered per-surface color management state.
#[derive(Debug, Clone, Copy)]
pub struct ColorManagementSurfaceCachedState {
    /// The image description attached to the surface, if any.
    pub description: Option<ImageDescription>,
    /// The rendering intent the client prefers for mapping the surface to outputs.
    pub render_intent: RenderIntent,
}

impl Default for ColorManagementSurfaceCachedState {
    /// No image description, perceptual rendering.
    fn default() -> (state: Self)
        ensures
            state == ColorManagementSurfaceCachedState::unset(),
    {
        ColorManagementSurfaceCachedState {
            description: None,
            render_intent: RenderIntent::Perceptual,
        }
    }
}

impl PartialEq for ColorManagementSurfaceCachedState {
    fn eq(&self, other: &Self) -> (same: bool) {
        self.render_intent == other.render_intent && (match (self.description, other.description) {
            (Some(ours), Some(theirs)) => ours == theirs,
            (None, None) => true,
            _ => false,
        })
    }
}

impl vstd::std_specs::cmp::PartialEqSpecImpl for ColorManagementSurfaceCachedState {
    open spec fn obeys_eq_spec() -> bool {
        true
    }

    open spec fn eq_spec(&self, other: &Self) -> bool {
        *self == *other
    }
}

impl ColorManagementSurfaceCachedState {
    /// The state of a surface to which nothing is attached.
    pub open spec fn unset() -> Self {
        ColorManagementSurfaceCachedState {
            description: None,
            render_intent: RenderIntent::Perceptual,
        }
    }

    /// Produces the state to be cached by a `wl_surface.commit`. The pending state stays as it is.
    pub fn commit(&mut self) -> (cached: Self)
        ensures
            cached == *old(self),
            *final(self) == *old(self),
    {
        *self
    }

    /// Applies a cached state on top of an earlier one, which it replaces as a whole.
    pub fn merge_into(self, into: &mut Self)
        ensures
            *final(into) == self,
    {
        *into = self;
    }
}

/// Per-surface color-management bookkeeping: enforces the
/// one-`wp_color_management_surface_v1`-per-surface rule and tracks the surface's feedback
/// objects for `preferred_changed`.
#[derive(Debug)]
pub struct ColorManagementSurfaceData {
    attached: bool,
    /// Keys of the surface's `wp_color_management_surface_feedback_v1` objects.
    feedbacks: Vec<u64>,
    /// Identity of the last preferred description notified for this surface, for dedupe.
    last_preferred: Option<u32>,
}

impl Default for ColorManagementSurfaceData {
    /// Nothing attached, tracked or notified.
    fn default() -> (data: Self)
        ensures
            data@ == SurfaceDataView::blank(),
    {
        let data = ColorManagementSurfaceData {
            attached: false,
            feedbacks: Vec::new(),
            last_preferred: None,
        };
        assert(data@ =~= SurfaceDataView::blank());
        data
    }
}

/// The content of a [`ColorManagementSurfaceData`].
#[verifier::ext_equal]
pub struct SurfaceDataView {
    /// Whether a `wp_color_management_surface_v1` is attached to the surface.
    pub attached: bool,
    /// The tracked feedback objects, in the order of their creation.
    pub feedbacks: Seq<u64>,
    /// The identity last notified.
    pub last_preferred: Option<u32>,
}

impl SurfaceDataView {
    /// Nothing attached, tracked or notified.
    pub open spec fn blank() -> Self {
        SurfaceDataView { attached: false, feedbacks: Seq::empty(), last_preferred: None }
    }
}

impl View for ColorManagementSurfaceData {
    type V = SurfaceDataView;

    closed spec fn view(&self) -> SurfaceDataView {
        SurfaceDataView {
            attached: self.attached,
            feedbacks: self.feedbacks@,
            last_preferred: self.last_preferred,
        }
    }
}

/// Everything that color management keeps on a surface.
#[derive(Debug)]
pub struct SurfaceStates {
    /// The bookkeeping, once a protocol object was created for the surface.
    data: Option<ColorManagementSurfaceData>,
    /// What the client has set, to be cached by its next commit.
    pending: ColorManagementSurfaceCachedState,
    /// What the last commit that took effect has cached.
    current: ColorManagementSurfaceCachedState,
}

/// The content of a [`SurfaceStates`].
#[verifier::ext_equal]
pub struct SurfaceView {
    /// The bookkeeping, once a protocol object was created for the surface.
    pub data: Option<SurfaceDataView>,
    /// What the client has set, to be cached by its next commit.
    pub pending: ColorManagementSurfaceCachedState,
    /// What the last commit that took effect has cached.
    pub current: ColorManagementSurfaceCachedState,
}

impl SurfaceView {
    /// A surface that color management has not touched.
    pub open spec fn untouched() -> Self {
        SurfaceView {
            data: None,
            pending: ColorManagementSurfaceCachedState::unset(),
            current: ColorManagementSurfaceCachedState::unset(),
        }
    }

    /// The bookkeeping, which is blank as long as there is none.
    pub open spec fn data_or_blank(self) -> SurfaceDataView {
        match self.data {
            Some(data) => data,
            None => SurfaceDataView::blank(),
        }
    }

    /// Whether a `wp_color_management_surface_v1` is attached.
    pub open spec fn is_attached(self) -> bool {
        self.data_or_blank().attached
    }

    /// The surface with a `wp_color_management_surface_v1` attached.
    pub open spec fn attach(self) -> Self {
        SurfaceView {
            data: Some(SurfaceDataView { attached: true, ..self.data_or_blank() }),
            ..self
        }
    }

    /// The surface after its `wp_color_management_surface_v1` is gone.
    pub open spec fn detach(self) -> Self {
        SurfaceView {
            data: match self.data {
                Some(data) => Some(SurfaceDataView { attached: false, ..data }),
                None => None,
            },
            pending: ColorManagementSurfaceCachedState::unset(),
            ..self
        }
    }

    /// The surface with one more feedback object.
    pub open spec fn track(self, feedback: u64) -> Self {
        SurfaceView {
            data: Some(
                SurfaceDataView {
                    feedbacks: self.data_or_blank().feedbacks.push(feedback),
                    ..self.data_or_blank()
                },
            ),
            ..self
        }
    }

    /// The surface after a feedback object is gone.
    pub open spec fn untrack(self, feedback: u64) -> Self {
        SurfaceView {
            data: match self.data {
                Some(data) => Some(
                    SurfaceDataView { feedbacks: without(data.feedbacks, feedback), ..data },
                ),
                None => None,
            },
            ..self
        }
    }

    /// The surface with a new pending state.
    pub open spec fn set_pending(self, pending: ColorManagementSurfaceCachedState) -> Self {
        SurfaceView { pending, ..self }
    }

    /// The surface after a commit that cached this state took effect.
    pub open spec fn apply(self, cached: ColorManagementSurfaceCachedState) -> Self {
        SurfaceView { current: cached, ..self }
    }

    /// Whether a notice of `identity` is news to the surface's clients.
    pub open spec fn is_news(self, identity: u32) -> bool {
        self.data is Some && self.data->0.last_preferred != Some(identity)
    }

    /// The surface after its feedback objects among `live` were given notice of `identity`.
    pub open spec fn notified(self, identity: u32, live: Seq<u64>) -> Self {
        if self.is_news(identity) {
            SurfaceView {
                data: Some(
                    SurfaceDataView {
                        feedbacks: restricted(self.data->0.feedbacks, live),
                        last_preferred: Some(identity),
                        ..self.data->0
                    },
                ),
                ..self
            }
        } else {
            self
        }
    }

    /// The feedback objects that are to be given notice of `identity`, when those in `live` are
    /// alive.
    pub open spec fn recipients(self, identity: u32, live: Seq<u64>) -> Seq<u64> {
        if self.is_news(identity) {
            restricted(self.data->0.feedbacks, live)
        } else {
            Seq::empty()
        }
    }
}

impl View for SurfaceStates {
    type V = SurfaceView;

    closed spec fn view(&self) -> SurfaceView {
        SurfaceView {
            data: match self.data {
                Some(data) => Some(data@),
                None => None,
            },
            pending: self.pending,
            current: self.current,
        }
    }
}

impl Default for SurfaceStates {
    /// A surface that color management has not touched.
    fn default() -> (surface: Self)
        ensures
            surface@ == SurfaceView::untouched(),
    {
        SurfaceStates {
            data: None,
            pending: ColorManagementSurfaceCachedState::default(),
            current: ColorManagementSurfaceCachedState::default(),
        }
    }
}

impl SurfaceStates {
    /// Takes the bookkeeping out; it is blank if there was none.
    fn take_data(&mut self) -> (data: ColorManagementSurfaceData)
        ensures
            data@ == old(self)@.data_or_blank(),
            final(self).data is None,
            final(self).pending == old(self).pending,
            final(self).current == old(self).current,
    {
        match self.data.take() {
            Some(data) => data,
            None => ColorManagementSurfaceData::default(),
        }
    }

    /// Attaches a `wp_color_management_surface_v1`. Returns whether one was attached already.
    pub(crate) fn attach(&mut self) -> (already_attached: bool)
        ensures
            already_attached == old(self)@.is_attached(),
            final(self)@ == old(self)@.attach(),
    {
        let mut data = self.take_data();
        let already_attached = data.attached;
        data.attached = true;
        self.data = Some(data);
        assert(self@ =~= old(self)@.attach());
        already_attached
    }

    /// Tracks a feedback object.
    pub(crate) fn track_feedback(&mut self, feedback: u64)
        ensures
            final(self)@ == old(self)@.track(feedback),
    {
        let mut data = self.take_data();
        data.feedbacks.push(feedback);
        self.data = Some(data);
        assert(self@ =~= old(self)@.track(feedback));
    }

    /// Forgets a feedback object that was destroyed.
    pub(crate) fn untrack_feedback(&mut self, feedback: u64)
        ensures
            final(self)@ == old(self)@.untrack(feedback),
    {
        if let Some(mut data) = self.data.take() {
            data.feedbacks = remove_all(&data.feedbacks, feedback);
            self.data = Some(data);
        }
        assert(self@ =~= old(self)@.untrack(feedback));
    }

    /// Settles which feedback objects get notice of `identity`: those in `live`, unless it is what
    /// the surface was last notified of. Feedback objects that are not in `live` are forgotten.
    pub(crate) fn notify_preferred(&mut self, identity: u32, live: &Vec<u64>) -> (recipients: Vec<u64>)
        ensures
            final(self)@ == old(self)@.notified(identity, live@),
            recipients@ == old(self)@.recipients(identity, live@),
    {
        let mut recipients: Vec<u64> = Vec::new();
        if let Some(mut data) = self.data.take() {
            if data.last_preferred != Some(identity) {
                data.last_preferred = Some(identity);
                recipients = restrict(&data.feedbacks, live);
                data.feedbacks = recipients.clone();
                assert(data.feedbacks@ =~= recipients@);
            }
            self.data = Some(data);
        }
        assert(self@ =~= old(self)@.notified(identity, live@));
        recipients
    }

    /// Produces the state to be cached by a `wl_surface.commit`: what is pending at that time. It is
    /// to be handed to [`apply`](Self::apply) when the commit takes effect, which is later for a
    /// synchronized subsurface; the client may set other pending state in between.
    pub fn commit(&mut self) -> (cached: ColorManagementSurfaceCachedState)
        ensures
            cached == old(self)@.pending,
            final(self)@ == old(self)@,
    {
        self.pending.commit()
    }

    /// Lets a commit take effect: the state that it cached becomes the committed one.
    pub fn apply(&mut self, cached: ColorManagementSurfaceCachedState)
        ensures
            final(self)@ == old(self)@.apply(cached),
    {
        cached.merge_into(&mut self.current);
    }

    /// Resets the surface after its `wp_color_management_surface_v1` was destroyed, and allows
    /// attaching a new one. Returns whether the pending image description changed.
    pub(crate) fn detach(&mut self) -> (changed: bool)
        ensures
            changed == (old(self)@.pending.description is Some),
            final(self)@ == old(self)@.detach(),
    {
        if let Some(mut data) = self.data.take() {
            data.attached = false;
            self.data = Some(data);
        }
        let changed = self.pending.description.is_some();
        self.pending = ColorManagementSurfaceCachedState::default();
        assert(self@ =~= old(self)@.detach());
        changed
    }
}

/// Returns the committed image description and rendering intent of a surface.
pub fn get_surface_description(surface: &SurfaceStates) -> (committed: (
    Option<ImageDescription>,
    RenderIntent,
))
    ensures
        committed == (surface@.current.description, surface@.current.render_intent),
{
    let state = surface.current;
    (state.description, state.render_intent)
}

/// Stores a new pending image description on the surface. Returns whether the pending value
/// actually changed: clients re-attach the same description every frame, and callers only want to
/// react on real changes.
pub fn set_pending_description(
    surface: &mut SurfaceStates,
    description: Option<ImageDescription>,
    render_intent: RenderIntent,
) -> (changed: bool)
    ensures
        final(surface)@ == old(surface)@.set_pending(
            (ColorManagementSurfaceCachedState { description, render_intent }),
        ),
        changed == (old(surface)@.pending != (ColorManagementSurfaceCachedState {
            description,
            render_intent,
        })),
{
    let new = ColorManagementSurfaceCachedState { description, render_intent };
    if surface.pending == new {
        false
    } else {
        surface.pending = new;
        true
    }
}

} // verus!
