//! The state of the wp-color-management-v1 global: what is advertised to clients, the identities
//! of image descriptions, and who is told of changes.

use vstd::prelude::*;

use crate::description::{ImageDescription, ImageDescriptionData};
use crate::lookup::{contains, position, Distinguishable};
use crate::surface::SurfaceStates;
use crate::wire::{Feature, Primaries, RenderIntent, TransferFunction};

verus! {

/// State of the wp-color-management-v1 global.
#[derive(Debug)]
pub struct ColorManagementState {
    supported_tfs: Vec<TransferFunction>,
    supported_primaries: Vec<Primaries>,
    supported_features: Vec<Feature>,
    supported_intents: Vec<RenderIntent>,
    /// Known distinct image descriptions; a description's identity is its index + 1.
    ///
    /// Identities must be stable so that the identity sent in `preferred_changed` matches the
    /// identity a subsequent `get_preferred` delivers via `ready`. The table grows
    /// monotonically with distinct descriptions, which is bounded in practice (clients create
    /// the same few descriptions).
    identities: Vec<ImageDescription>,
    /// Keys of the `wp_color_management_output_v1` objects, for
    /// [`output_description_changed`](Self::output_description_changed).
    output_objects: Vec<u64>,
}

/// The content of a [`ColorManagementState`].
#[verifier::ext_equal]
pub struct StateView {
    /// The transfer functions that clients may use.
    pub supported_tfs: Seq<TransferFunction>,
    /// The primaries that clients may use.
    pub supported_primaries: Seq<Primaries>,
    /// The features that clients may use.
    pub supported_features: Seq<Feature>,
    /// The rendering intents that clients may use.
    pub supported_intents: Seq<RenderIntent>,
    /// The known image descriptions, in the order of their identities.
    pub identities: Seq<ImageDescription>,
    /// The tracked `wp_color_management_output_v1` objects, in the order of their creation.
    pub output_objects: Seq<u64>,
}

impl StateView {
    /// What holds of the state at all times: no description is listed twice, each can be numbered,
    /// and what the protocol and this library always offer is among what is offered.
    pub open spec fn wf(self) -> bool {
        &&& self.identities.no_duplicates()
        &&& self.identities.len() <= u32::MAX
        &&& self.supported_features.contains(Feature::Parametric)
        &&& self.supported_intents.contains(RenderIntent::Perceptual)
    }

    /// Whether `desc` has an identity or there is one left for it.
    pub open spec fn can_identify(self, desc: ImageDescription) -> bool {
        self.identities.contains(desc) || self.identities.len() < u32::MAX
    }

    /// The state in which `desc` is known.
    pub open spec fn register(self, desc: ImageDescription) -> Self {
        StateView {
            identities: if self.identities.contains(desc) {
                self.identities
            } else {
                self.identities.push(desc)
            },
            ..self
        }
    }

    /// The identity of a known description.
    pub open spec fn identity(self, desc: ImageDescription) -> u32
        recommends
            self.identities.contains(desc),
    {
        (self.identities.index_of(desc) + 1) as u32
    }

    /// The state with one more `wp_color_management_output_v1`.
    pub open spec fn track_output(self, object: u64) -> Self {
        StateView { output_objects: self.output_objects.push(object), ..self }
    }

    /// The state without the `wp_color_management_output_v1` objects that are not in `live`.
    pub open spec fn prune_outputs(self, live: Seq<LiveOutputObject>) -> Self {
        StateView {
            output_objects: self.output_objects.filter(|object: u64| is_live(live, object)),
            ..self
        }
    }

    /// The `wp_color_management_output_v1` objects that are to be told of a change of `output`.
    pub open spec fn output_recipients(self, output: u64, live: Seq<LiveOutputObject>) -> Seq<u64> {
        self.prune_outputs(live).output_objects.filter(
            |object: u64| is_live_on(live, object, output),
        )
    }
}

impl View for ColorManagementState {
    type V = StateView;

    closed spec fn view(&self) -> StateView {
        StateView {
            supported_tfs: self.supported_tfs@,
            supported_primaries: self.supported_primaries@,
            supported_features: self.supported_features@,
            supported_intents: self.supported_intents@,
            identities: self.identities@,
            output_objects: self.output_objects@,
        }
    }
}

/// A `wp_color_management_output_v1` that is still alive.
#[derive(Debug, Clone, Copy, PartialEq, Eq, Structural)]
pub struct LiveOutputObject {
    /// The key of the object.
    pub object: u64,
    /// The key of the output that the object's `wl_output` belongs to, if it still belongs to one.
    pub output: Option<u64>,
}

impl Distinguishable for LiveOutputObject {
    fn same(self, other: Self) -> (same: bool) {
        self == other
    }
}

/// Whether `live` lists the object.
pub open spec fn is_live(live: Seq<LiveOutputObject>, object: u64) -> bool {
    exists|i: int| 0 <= i < live.len() && (#[trigger] live[i]).object == object
}

/// Whether `live` lists the object as one of `output`.
pub open spec fn is_live_on(live: Seq<LiveOutputObject>, object: u64, output: u64) -> bool {
    live.contains((LiveOutputObject { object, output: Some(output) }))
}

/// A `preferred_changed` event for one feedback object.
#[derive(Debug, Clone, Copy, PartialEq, Eq, Structural)]
pub struct PreferredChanged {
    /// The key of the `wp_color_management_surface_feedback_v1` to send the event on.
    pub feedback: u64,
    /// The identity of the newly preferred description.
    pub identity: u32,
}

/// The events that tell `recipients` of `identity`.
pub open spec fn preferred_changed_events(recipients: Seq<u64>, identity: u32) -> Seq<
    PreferredChanged,
> {
    Seq::new(recipients.len(), |i: int| PreferredChanged { feedback: recipients[i], identity })
}

/// A new `wp_image_description_v1` that is ready at once.
#[derive(Debug)]
pub struct ReadyDescription {
    /// The user data of the object.
    pub data: ImageDescriptionData,
    /// The identity to send in the object's `ready` event.
    pub identity: u32,
}

/// An event of `wp_color_manager_v1`.
#[derive(Debug, Clone, Copy, PartialEq, Eq, Structural)]
pub enum ManagerEvent {
    /// `supported_intent`.
    SupportedIntent { intent: RenderIntent },
    /// `supported_feature`.
    SupportedFeature { feature: Feature },
    /// `supported_tf_named`.
    SupportedTfNamed { tf: TransferFunction },
    /// `supported_primaries_named`.
    SupportedPrimariesNamed { primaries: Primaries },
    /// `done`.
    Done,
}

/// The events that advertise rendering intents.
pub open spec fn intent_events(intents: Seq<RenderIntent>) -> Seq<ManagerEvent> {
    Seq::new(intents.len(), |i: int| ManagerEvent::SupportedIntent { intent: intents[i] })
}

/// The events that advertise features.
pub open spec fn feature_events(features: Seq<Feature>) -> Seq<ManagerEvent> {
    Seq::new(features.len(), |i: int| ManagerEvent::SupportedFeature { feature: features[i] })
}

/// The events that advertise transfer functions.
pub open spec fn tf_events(tfs: Seq<TransferFunction>) -> Seq<ManagerEvent> {
    Seq::new(tfs.len(), |i: int| ManagerEvent::SupportedTfNamed { tf: tfs[i] })
}

/// The events that advertise primaries.
pub open spec fn primaries_events(primaries: Seq<Primaries>) -> Seq<ManagerEvent> {
    Seq::new(
        primaries.len(),
        |i: int| ManagerEvent::SupportedPrimariesNamed { primaries: primaries[i] },
    )
}

/// The events that a newly bound `wp_color_manager_v1` gets, from first to last.
pub open spec fn bind_events(state: StateView) -> Seq<ManagerEvent> {
    intent_events(state.supported_intents) + feature_events(state.supported_features) + tf_events(
        state.supported_tfs,
    ) + primaries_events(state.supported_primaries) + seq![ManagerEvent::Done]
}

/// `list` with `item` added at the end unless it is there already.
pub open spec fn with_item<T>(list: Seq<T>, item: T) -> Seq<T> {
    if list.contains(item) {
        list
    } else {
        list.push(item)
    }
}

impl ColorManagementState {
    /// What holds of the state at all times.
    pub open spec fn wf(&self) -> bool {
        self@.wf()
    }

    /// Creates the state of a new wp-color-management-v1 global.
    ///
    /// The supported transfer functions, primaries, features and rendering intents are
    /// advertised to clients and validated in requests. [`Feature::Parametric`] is always
    /// advertised (only parametric descriptions are implemented); [`RenderIntent::Perceptual`]
    /// is always advertised as required by the protocol.
    pub fn new(
        supported_tfs: Vec<TransferFunction>,
        supported_primaries: Vec<Primaries>,
        supported_features: Vec<Feature>,
        supported_intents: Vec<RenderIntent>,
    ) -> (state: Self)
        ensures
            state.wf(),
            state@ == (StateView {
                supported_tfs: supported_tfs@,
                supported_primaries: supported_primaries@,
                supported_features: with_item(supported_features@, Feature::Parametric),
                supported_intents: with_item(supported_intents@, RenderIntent::Perceptual),
                identities: Seq::empty(),
                output_objects: Seq::empty(),
            }),
    {
        let mut features = supported_features;
        if !contains(&features, Feature::Parametric) {
            features.push(Feature::Parametric);
            assert(features@.last() == Feature::Parametric);
        }
        let mut intents = supported_intents;
        if !contains(&intents, RenderIntent::Perceptual) {
            intents.push(RenderIntent::Perceptual);
            assert(intents@.last() == RenderIntent::Perceptual);
        }
        ColorManagementState {
            supported_tfs,
            supported_primaries,
            supported_features: features,
            supported_intents: intents,
            identities: Vec::new(),
            output_objects: Vec::new(),
        }
    }

    /// Whether `desc` has an identity or there is one left for it.
    pub fn can_identify(&self, desc: ImageDescription) -> (can: bool)
        ensures
            can == self@.can_identify(desc),
    {
        let room = (self.identities.len() as u64) < u32::MAX as u64;
        room || contains(&self.identities, desc)
    }

    /// Returns the stable identity for a description, assigning a new one if it is not known
    /// yet.
    pub fn identity_for(&mut self, desc: ImageDescription) -> (identity: u32)
        requires
            old(self).wf(),
            old(self)@.can_identify(desc),
        ensures
            final(self).wf(),
            final(self)@ == old(self)@.register(desc),
            identity == final(self)@.identity(desc),
            identity != 0,
            identity <= final(self)@.identities.len(),
            final(self)@.identities[identity - 1] == desc,
    {
        let index: usize = match position(&self.identities, desc) {
            Some(index) => index,
            None => {
                self.identities.push(desc);
                self.identities.len() - 1
            },
        };
        proof {
            assert(self@ =~= old(self)@.register(desc));
            assert(self@.identities[index as int] == desc);
        }
        index as u32 + 1
    }

    /// The contents of a `wp_image_description_v1` carrying `desc` that is immediately ready.
    pub fn make_ready_description(&mut self, desc: ImageDescription) -> (ready: ReadyDescription)
        requires
            old(self).wf(),
            old(self)@.can_identify(desc),
        ensures
            final(self).wf(),
            final(self)@ == old(self)@.register(desc),
            ready.data@ == desc,
            ready.identity == final(self)@.identity(desc),
    {
        let identity: u32 = self.identity_for(desc);
        ReadyDescription { data: ImageDescriptionData::new(desc), identity }
    }

    /// The notices to the surface's feedback objects that the compositor's preferred image
    /// description for it changed. `live` lists the feedback objects that are still alive.
    ///
    /// Deduplicated per surface: notifying the same description again is a no-op, so this is
    /// safe to call from a periodic refresh. Clients react by calling `get_preferred`, which
    /// routes through
    /// [`ColorManagementHandler::preferred_description_for_surface`](crate::ColorManagementHandler);
    /// that must already return the new description when this is called.
    pub fn preferred_changed(
        &mut self,
        surface: &mut SurfaceStates,
        desc: ImageDescription,
        live: &Vec<u64>,
    ) -> (events: Vec<PreferredChanged>)
        requires
            old(self).wf(),
            old(self)@.can_identify(desc),
        ensures
            final(self).wf(),
            final(self)@ == old(self)@.register(desc),
            final(surface)@ == old(surface)@.notified(final(self)@.identity(desc), live@),
            events@ == preferred_changed_events(
                old(surface)@.recipients(final(self)@.identity(desc), live@),
                final(self)@.identity(desc),
            ),
    {
        let identity: u32 = self.identity_for(desc);
        let recipients = surface.notify_preferred(identity, live);
        let mut events: Vec<PreferredChanged> = Vec::new();
        let mut index: usize = 0;
        while index < recipients.len()
            invariant
                index <= recipients@.len(),
                events@ == preferred_changed_events(recipients@.take(index as int), identity),
            decreases recipients@.len() - index,
        {
            events.push(PreferredChanged { feedback: recipients[index], identity });
            index += 1;
            assert(events@ =~= preferred_changed_events(recipients@.take(index as int), identity));
        }
        assert(recipients@.take(index as int) =~= recipients@);
        events
    }

    /// The `wp_color_management_output_v1` objects of `output` that are to be sent
    /// `image_description_changed`. `live` lists the objects that are still alive; the others are
    /// forgotten.
    ///
    /// Clients react by calling `get_image_description`, which routes through
    /// [`ColorManagementHandler::description_for_output`](crate::ColorManagementHandler); that must
    /// already return the new description when this is called.
    pub fn output_description_changed(
        &mut self,
        output: u64,
        live: &Vec<LiveOutputObject>,
    ) -> (notified: Vec<u64>)
        requires
            old(self).wf(),
        ensures
            final(self).wf(),
            final(self)@ == old(self)@.prune_outputs(live@),
            notified@ == old(self)@.output_recipients(output, live@),
    {
        let ghost alive = |object: u64| is_live(live@, object);
        let ghost shown = |object: u64| is_live_on(live@, object, output);
        let ghost objects = self.output_objects@;
        let mut kept: Vec<u64> = Vec::new();
        let mut notified: Vec<u64> = Vec::new();
        let mut index: usize = 0;
        assert(objects.take(0).filter(alive) =~= Seq::<u64>::empty()) by {
            reveal(Seq::filter);
        }
        assert(Seq::<u64>::empty().filter(shown) =~= Seq::<u64>::empty()) by {
            reveal(Seq::filter);
        }
        while index < self.output_objects.len()
            invariant
                index <= objects.len(),
                objects == self.output_objects@,
                alive == (|object: u64| is_live(live@, object)),
                shown == (|object: u64| is_live_on(live@, object, output)),
                kept@ == objects.take(index as int).filter(alive),
                notified@ == kept@.filter(shown),
            decreases objects.len() - index,
        {
            let object: u64 = self.output_objects[index];
            proof {
                objects.take(index as int).lemma_filter_push(object, alive);
                assert(objects.take(index + 1) =~= objects.take(index as int).push(object));
                kept@.lemma_filter_push(object, shown);
            }
            if lists_object(live, object) {
                kept.push(object);
                if contains(live, LiveOutputObject { object, output: Some(output) }) {
                    notified.push(object);
                }
            }
            index += 1;
        }
        assert(objects.take(index as int) =~= objects);
        self.output_objects = kept;
        assert(self@ =~= old(self)@.prune_outputs(live@));
        notified
    }

    /// The events that advertise to a newly bound `wp_color_manager_v1` what is supported.
    pub fn bind(&self) -> (events: Vec<ManagerEvent>)
        ensures
            events@ == bind_events(self@),
    {
        let mut events: Vec<ManagerEvent> = Vec::new();
        let mut index: usize = 0;
        while index < self.supported_intents.len()
            invariant
                index <= self.supported_intents@.len(),
                events@ == intent_events(self.supported_intents@.take(index as int)),
            decreases self.supported_intents@.len() - index,
        {
            events.push(ManagerEvent::SupportedIntent { intent: self.supported_intents[index] });
            index += 1;
            assert(events@ =~= intent_events(self.supported_intents@.take(index as int)));
        }
        assert(self.supported_intents@.take(index as int) =~= self.supported_intents@);
        let ghost before = events@;
        index = 0;
        while index < self.supported_features.len()
            invariant
                index <= self.supported_features@.len(),
                events@ =~= before + feature_events(self.supported_features@.take(index as int)),
            decreases self.supported_features@.len() - index,
        {
            events.push(ManagerEvent::SupportedFeature { feature: self.supported_features[index] });
            index += 1;
        }
        assert(self.supported_features@.take(index as int) =~= self.supported_features@);
        let ghost before = events@;
        index = 0;
        while index < self.supported_tfs.len()
            invariant
                index <= self.supported_tfs@.len(),
                events@ =~= before + tf_events(self.supported_tfs@.take(index as int)),
            decreases self.supported_tfs@.len() - index,
        {
            events.push(ManagerEvent::SupportedTfNamed { tf: self.supported_tfs[index] });
            index += 1;
        }
        assert(self.supported_tfs@.take(index as int) =~= self.supported_tfs@);
        let ghost before = events@;
        index = 0;
        while index < self.supported_primaries.len()
            invariant
                index <= self.supported_primaries@.len(),
                events@ =~= before + primaries_events(self.supported_primaries@.take(index as int)),
            decreases self.supported_primaries@.len() - index,
        {
            events.push(
                ManagerEvent::SupportedPrimariesNamed {
                    primaries: self.supported_primaries[index],
                },
            );
            index += 1;
        }
        assert(self.supported_primaries@.take(index as int) =~= self.supported_primaries@);
        events.push(ManagerEvent::Done);
        assert(events@ =~= bind_events(self@));
        events
    }

    /// Tracks a `wp_color_management_output_v1`.
    pub(crate) fn track_output(&mut self, object: u64)
        ensures
            final(self)@ == old(self)@.track_output(object),
    {
        self.output_objects.push(object);
        assert(self@ =~= old(self)@.track_output(object));
    }

    /// Whether clients may use the transfer function.
    pub(crate) fn supports_tf(&self, tf: TransferFunction) -> (supported: bool)
        ensures
            supported == self@.supported_tfs.contains(tf),
    {
        contains(&self.supported_tfs, tf)
    }

    /// Whether clients may use the primaries.
    pub(crate) fn supports_primaries(&self, primaries: Primaries) -> (supported: bool)
        ensures
            supported == self@.supported_primaries.contains(primaries),
    {
        contains(&self.supported_primaries, primaries)
    }

    /// Whether clients may use the feature.
    pub(crate) fn supports_feature(&self, feature: Feature) -> (supported: bool)
        ensures
            supported == self@.supported_features.contains(feature),
    {
        contains(&self.supported_features, feature)
    }

    /// Whether clients may use the rendering intent.
    pub(crate) fn supports_intent(&self, intent: RenderIntent) -> (supported: bool)
        ensures
            supported == self@.supported_intents.contains(intent),
    {
        contains(&self.supported_intents, intent)
    }
}

/// Whether `live` lists the object.
fn lists_object(live: &Vec<LiveOutputObject>, object: u64) -> (listed: bool)
    ensures
        listed == is_live(live@, object),
{
    let mut index: usize = 0;
    while index < live.len()
        invariant
            index <= live@.len(),
            forall|i: int| 0 <= i < index ==> (#[trigger] live@[i]).object != object,
        decreases live@.len() - index,
    {
        if live[index].object == object {
            assert(live@[index as int].object == object);
            return true;
        }
        index += 1;
    }
    false
}

} // verus!
