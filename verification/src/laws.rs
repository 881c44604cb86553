//! Laws: what holds across the functions of the library, whatever they are called with.

use vstd::prelude::*;

use crate::description::{
    info_events, target_luminance_events, target_max_cll_events, ImageDescription, InfoEvent,
    ParamsView,
};
use crate::lookup::without;
use crate::request::{
    readied, supports_intent_code, supports_primaries_code, supports_tf_code, ParamsRequest,
    SurfaceRequest,
};
use crate::state::{
    bind_events, is_live, is_live_on, preferred_changed_events, LiveOutputObject, ManagerEvent,
    ReadyDescription, StateView,
};
use crate::surface::{ColorManagementSurfaceCachedState, SurfaceView};
use crate::wire::{Feature, Primaries, RenderIntent, TransferFunction};

verus! {

// ---- numbers on the wire ----

/// A named value is found again by its number, and a number stands for at most one value.
pub proof fn law_transfer_function_codes(tf: TransferFunction, code: u32)
    ensures
        TransferFunction::of_code(tf.code()) == Some(tf),
        TransferFunction::of_code(code) == Some(tf) ==> tf.code() == code,
{
}

/// A named value is found again by its number, and a number stands for at most one value.
pub proof fn law_primaries_codes(primaries: Primaries, code: u32)
    ensures
        Primaries::of_code(primaries.code()) == Some(primaries),
        Primaries::of_code(code) == Some(primaries) ==> primaries.code() == code,
{
}

/// A named value is found again by its number, and a number stands for at most one value.
pub proof fn law_render_intent_codes(intent: RenderIntent, code: u32)
    ensures
        RenderIntent::of_code(intent.code()) == Some(intent),
        RenderIntent::of_code(code) == Some(intent) ==> intent.code() == code,
{
}

/// Different features have different numbers.
pub proof fn law_feature_codes(a: Feature, b: Feature)
    ensures
        a.code() == b.code() ==> a == b,
{
}

// ---- identities ----

/// The identity of a known description is its place in the table, counted from one; in particular
/// it is never the reserved identity zero.
pub proof fn law_identity_is_place(state: StateView, desc: ImageDescription)
    requires
        state.wf(),
        state.identities.contains(desc),
    ensures
        1 <= state.identity(desc) <= state.identities.len(),
        state.identities[state.identity(desc) - 1] == desc,
{
}

/// Different descriptions have different identities.
pub proof fn law_identities_differ(state: StateView, a: ImageDescription, b: ImageDescription)
    requires
        state.wf(),
        state.identities.contains(a),
        state.identities.contains(b),
    ensures
        state.identity(a) == state.identity(b) <==> a == b,
{
    law_identity_is_place(state, a);
    law_identity_is_place(state, b);
}

/// Whether `after` can have come about from `before`: what is advertised is the same, and
/// descriptions were at most added to the table.
pub open spec fn evolves(before: StateView, after: StateView) -> bool {
    &&& after.supported_tfs == before.supported_tfs
    &&& after.supported_primaries == before.supported_primaries
    &&& after.supported_features == before.supported_features
    &&& after.supported_intents == before.supported_intents
    &&& before.identities.is_prefix_of(after.identities)
}

/// Every step that a function of [`ColorManagementState`](crate::ColorManagementState) takes
/// leaves what is advertised alone, and keeps the table of identities as it is or adds to it.
pub proof fn law_steps_evolve(
    state: StateView,
    desc: ImageDescription,
    object: u64,
    live: Seq<LiveOutputObject>,
)
    ensures
        evolves(state, state),
        evolves(state, state.register(desc)),
        evolves(state, state.track_output(object)),
        evolves(state, state.prune_outputs(live)),
{
}

/// Answering a request with a description is such a step too.
pub proof fn law_readying_evolves(
    before: StateView,
    after: StateView,
    answer: Option<ImageDescription>,
    ready: Option<ReadyDescription>,
)
    requires
        readied(before, after, answer, ready),
    ensures
        evolves(before, after),
{
}

/// Steps add up.
pub proof fn law_evolution_composes(first: StateView, second: StateView, third: StateView)
    requires
        evolves(first, second),
        evolves(second, third),
    ensures
        evolves(first, third),
{
}

/// Identities are stable: a description keeps its identity, however the state evolves.
pub proof fn law_identity_is_stable(before: StateView, after: StateView, desc: ImageDescription)
    requires
        before.wf(),
        after.wf(),
        evolves(before, after),
        before.identities.contains(desc),
    ensures
        after.identities.contains(desc),
        after.identity(desc) == before.identity(desc),
        after.register(desc) == after,
{
    law_identity_is_place(before, desc);
    let index = before.identity(desc) - 1;
    assert(after.identities[index] == desc);
    law_identity_is_place(after, desc);
}

/// The identity that clients are notified of is the identity under which the same description is
/// readied later, whatever happens in between.
pub proof fn law_notice_matches_later_answer(
    before: StateView,
    later: StateView,
    after: StateView,
    desc: ImageDescription,
    ready: Option<ReadyDescription>,
)
    requires
        before.wf(),
        before.can_identify(desc),
        later.wf(),
        evolves(before.register(desc), later),
        readied(later, after, Some(desc), ready),
    ensures
        ready is Some,
        ready->0.data@ == desc,
        ready->0.identity == before.register(desc).identity(desc),
        after == later,
{
    law_registered(before, desc);
    law_identity_is_stable(before.register(desc), later, desc);
}

/// A description that was registered is known, and the state is as sound as before.
pub proof fn law_registered(state: StateView, desc: ImageDescription)
    requires
        state.wf(),
        state.can_identify(desc),
    ensures
        state.register(desc).wf(),
        state.register(desc).identities.contains(desc),
        state.register(desc).register(desc) == state.register(desc),
{
    if !state.identities.contains(desc) {
        assert(state.identities.push(desc).last() == desc);
    }
}

// ---- notices ----

/// Whether the surface was last notified of `identity`.
pub open spec fn was_last_notified(surface: SurfaceView, identity: u32) -> bool {
    surface.data is Some && surface.data->0.last_preferred == Some(identity)
}

/// Notifying a surface of the description it was last notified of is a no-op, whatever happened to
/// the surface and the state in between: nobody is told, and neither the state nor the surface
/// changes.
pub proof fn law_repeated_notice_is_noop(
    before: StateView,
    later: StateView,
    surface: SurfaceView,
    desc: ImageDescription,
    live: Seq<u64>,
)
    requires
        before.wf(),
        before.can_identify(desc),
        later.wf(),
        evolves(before.register(desc), later),
        was_last_notified(surface, before.register(desc).identity(desc)),
    ensures
        ({
            let identity = later.register(desc).identity(desc);
            &&& later.register(desc) == later
            &&& surface.notified(identity, live) == surface
            &&& surface.recipients(identity, live) == Seq::<u64>::empty()
        }),
{
    law_registered(before, desc);
    law_identity_is_stable(before.register(desc), later, desc);
}

/// A notice is remembered, and what a surface was last notified of is forgotten by nothing but the
/// next notice. A surface on which nothing is kept yet remembers no notice.
pub proof fn law_last_notice_is_remembered(
    surface: SurfaceView,
    cached: ColorManagementSurfaceCachedState,
    feedback: u64,
    identity: u32,
    last: u32,
    live: Seq<u64>,
)
    ensures
        surface.data is Some ==> was_last_notified(surface.notified(identity, live), identity),
        surface.data is None ==> surface.notified(identity, live) == surface,
        was_last_notified(surface.attach(), last) == was_last_notified(surface, last),
        was_last_notified(surface.detach(), last) == was_last_notified(surface, last),
        was_last_notified(surface.track(feedback), last) == was_last_notified(surface, last),
        was_last_notified(surface.untrack(feedback), last) == was_last_notified(surface, last),
        was_last_notified(surface.set_pending(cached), last) == was_last_notified(surface, last),
        was_last_notified(surface.apply(cached), last) == was_last_notified(surface, last),
{
}

/// Notifying a surface of another description than before is news to it.
pub proof fn law_other_notice_is_news(
    state: StateView,
    surface: SurfaceView,
    a: ImageDescription,
    b: ImageDescription,
    live: Seq<u64>,
)
    requires
        state.wf(),
        state.identities.contains(a),
        state.identities.contains(b),
        a != b,
        surface.data is Some,
    ensures
        surface.notified(state.identity(a), live).is_news(state.identity(b)),
{
    law_identities_differ(state, a, b);
}

/// A notice that is news reaches exactly the tracked feedback objects that are alive, and the
/// others are tracked no longer.
pub proof fn law_notice_reaches_live_feedbacks(
    surface: SurfaceView,
    identity: u32,
    live: Seq<u64>,
    feedback: u64,
)
    requires
        surface.is_news(identity),
    ensures
        surface.recipients(identity, live).contains(feedback) <==> surface.data->0.feedbacks.contains(
            feedback,
        ) && live.contains(feedback),
        surface.notified(identity, live).data is Some,
        surface.notified(identity, live).data->0.feedbacks == surface.recipients(identity, live),
{
    lemma_filter_membership(
        surface.data->0.feedbacks,
        |item: u64| live.contains(item),
        feedback,
    );
}

/// A feedback object is tracked from its creation until its destruction: nothing else drops it but
/// a notice that finds it dead.
pub proof fn law_feedback_lifetime(
    surface: SurfaceView,
    feedback: u64,
    other: u64,
    cached: ColorManagementSurfaceCachedState,
    identity: u32,
    live: Seq<u64>,
)
    requires
        other != feedback,
    ensures
        ({
            let feedbacks = surface.data_or_blank().feedbacks;
            let noticed = surface.notified(identity, live).data_or_blank().feedbacks;
            &&& surface.track(feedback).data_or_blank().feedbacks.contains(feedback)
            &&& !surface.untrack(feedback).data_or_blank().feedbacks.contains(feedback)
            &&& surface.track(feedback).data_or_blank().feedbacks.contains(other)
                == feedbacks.contains(other)
            &&& surface.untrack(feedback).data_or_blank().feedbacks.contains(other)
                == feedbacks.contains(other)
            &&& surface.attach().data_or_blank().feedbacks == feedbacks
            &&& surface.detach().data_or_blank().feedbacks == feedbacks
            &&& surface.set_pending(cached).data_or_blank().feedbacks == feedbacks
            &&& surface.apply(cached).data_or_blank().feedbacks == feedbacks
            &&& live.contains(feedback) ==> noticed.contains(feedback) == feedbacks.contains(
                feedback,
            )
        }),
{
    let feedbacks = surface.data_or_blank().feedbacks;
    assert(feedbacks.push(feedback).last() == feedback);
    if feedbacks.contains(other) {
        let i = choose|i: int| 0 <= i < feedbacks.len() && feedbacks[i] == other;
        assert(feedbacks.push(feedback)[i] == other);
    }
    lemma_without_membership(feedbacks, feedback, feedback);
    lemma_without_membership(feedbacks, feedback, other);
    if surface.is_news(identity) {
        law_notice_reaches_live_feedbacks(surface, identity, live, feedback);
    }
}

/// No feedback object is told twice of one preference: where each is tracked under a key of its own,
/// it is listed once, stays listed once whatever happens to the surface, and gets one event.
pub proof fn law_feedbacks_are_told_once(
    surface: SurfaceView,
    feedback: u64,
    cached: ColorManagementSurfaceCachedState,
    identity: u32,
    live: Seq<u64>,
)
    requires
        surface.data_or_blank().feedbacks.no_duplicates(),
    ensures
        SurfaceView::untouched().data_or_blank().feedbacks.no_duplicates(),
        !surface.data_or_blank().feedbacks.contains(feedback) ==> surface.track(
            feedback,
        ).data_or_blank().feedbacks.no_duplicates(),
        surface.untrack(feedback).data_or_blank().feedbacks.no_duplicates(),
        surface.attach().data_or_blank().feedbacks.no_duplicates(),
        surface.detach().data_or_blank().feedbacks.no_duplicates(),
        surface.set_pending(cached).data_or_blank().feedbacks.no_duplicates(),
        surface.apply(cached).data_or_blank().feedbacks.no_duplicates(),
        surface.notified(identity, live).data_or_blank().feedbacks.no_duplicates(),
        surface.recipients(identity, live).no_duplicates(),
        forall|i: int, j: int|
            #![auto]
            0 <= i < j < surface.recipients(identity, live).len() ==> preferred_changed_events(
                surface.recipients(identity, live),
                identity,
            )[i].feedback != preferred_changed_events(
                surface.recipients(identity, live),
                identity,
            )[j].feedback,
{
    let feedbacks = surface.data_or_blank().feedbacks;
    lemma_filter_no_duplicates(feedbacks, |item: u64| live.contains(item));
    lemma_without_no_duplicates(feedbacks, feedback);
}

/// A change of an output is told to exactly the tracked objects of that output that are alive.
pub proof fn law_output_notice_reaches_live_objects(
    state: StateView,
    output: u64,
    live: Seq<LiveOutputObject>,
    object: u64,
)
    ensures
        state.output_recipients(output, live).contains(object)
            <==> state.output_objects.contains(object) && is_live_on(live, object, output),
        state.prune_outputs(live).output_objects.contains(object)
            <==> state.output_objects.contains(object) && is_live(live, object),
{
    lemma_filter_membership(state.output_objects, |o: u64| is_live(live, o), object);
    lemma_filter_membership(
        state.prune_outputs(live).output_objects,
        |o: u64| is_live_on(live, o, output),
        object,
    );
    if is_live_on(live, object, output) {
        let entry = LiveOutputObject { object, output: Some(output) };
        let i = choose|i: int| 0 <= i < live.len() && live[i] == entry;
        assert(live[i].object == object);
    }
}

/// No object is told twice of one change of an output: where each is tracked under a key of its own,
/// it is listed once, and stays so while the state prunes its list.
pub proof fn law_output_objects_are_told_once(
    state: StateView,
    object: u64,
    desc: ImageDescription,
    output: u64,
    live: Seq<LiveOutputObject>,
)
    requires
        state.output_objects.no_duplicates(),
    ensures
        !state.output_objects.contains(object) ==> state.track_output(
            object,
        ).output_objects.no_duplicates(),
        state.register(desc).output_objects.no_duplicates(),
        state.prune_outputs(live).output_objects.no_duplicates(),
        state.output_recipients(output, live).no_duplicates(),
{
    lemma_filter_no_duplicates(state.output_objects, |o: u64| is_live(live, o));
    lemma_filter_no_duplicates(
        state.prune_outputs(live).output_objects,
        |o: u64| is_live_on(live, o, output),
    );
}

/// A `wp_color_management_output_v1` is tracked from its creation: nothing drops it but a notice
/// that finds it dead.
pub proof fn law_output_object_lifetime(
    state: StateView,
    object: u64,
    other: u64,
    desc: ImageDescription,
    live: Seq<LiveOutputObject>,
)
    requires
        other != object,
    ensures
        state.track_output(object).output_objects.contains(object),
        state.track_output(object).output_objects.contains(other)
            == state.output_objects.contains(other),
        state.register(desc).output_objects == state.output_objects,
        is_live(live, object) ==> state.prune_outputs(live).output_objects.contains(object)
            == state.output_objects.contains(object),
{
    let objects = state.output_objects;
    assert(objects.push(object).last() == object);
    if objects.contains(other) {
        let i = choose|i: int| 0 <= i < objects.len() && objects[i] == other;
        assert(objects.push(object)[i] == other);
    }
    lemma_filter_membership(objects, |o: u64| is_live(live, o), object);
}

/// A filter lists nothing twice that the list does not.
proof fn lemma_filter_no_duplicates<T>(list: Seq<T>, pred: spec_fn(T) -> bool)
    requires
        list.no_duplicates(),
    ensures
        list.filter(pred).no_duplicates(),
    decreases list.len(),
{
    reveal(Seq::filter);
    if list.len() > 0 {
        lemma_filter_no_duplicates(list.drop_last(), pred);
        lemma_filter_membership(list.drop_last(), pred, list.last());
    }
}

/// What is left without an element lists nothing twice that the list does not.
proof fn lemma_without_no_duplicates<T>(list: Seq<T>, dropped: T)
    requires
        list.no_duplicates(),
    ensures
        without(list, dropped).no_duplicates(),
{
    lemma_filter_no_duplicates(list, |item: T| item != dropped);
}

/// What a filter keeps.
proof fn lemma_filter_membership<T>(list: Seq<T>, pred: spec_fn(T) -> bool, item: T)
    ensures
        list.filter(pred).contains(item) <==> list.contains(item) && pred(item),
{
    if list.filter(pred).contains(item) {
        let i = choose|i: int| 0 <= i < list.filter(pred).len() && list.filter(pred)[i] == item;
        list.lemma_filter_pred(pred, i);
        list.lemma_filter_contains_rev(pred, item);
    }
    if list.contains(item) && pred(item) {
        let i = choose|i: int| 0 <= i < list.len() && list[i] == item;
        list.lemma_filter_contains(pred, i);
    }
}

/// What is left without an element.
proof fn lemma_without_membership<T>(list: Seq<T>, dropped: T, item: T)
    ensures
        without(list, dropped).contains(item) <==> list.contains(item) && item != dropped,
{
    lemma_filter_membership(list, |item: T| item != dropped, item);
}

// ---- surfaces ----

/// What a client sets is not visible before a commit of it takes effect, and is after that. What it
/// sets after the commit stays out of what the commit brings, and stays pending.
pub proof fn law_commit_publishes(
    surface: SurfaceView,
    pending: ColorManagementSurfaceCachedState,
    later: ColorManagementSurfaceCachedState,
)
    ensures
        ({
            let set = surface.set_pending(pending);
            let cached = set.pending;
            &&& set.current == surface.current
            &&& set.apply(cached).current == pending
            &&& set.apply(cached).pending == pending
            &&& set.set_pending(later).current == surface.current
            &&& set.set_pending(later).apply(cached).current == pending
            &&& set.set_pending(later).apply(cached).pending == later
            &&& surface.detach().current == surface.current
            &&& set.detach().apply(cached).current == pending
        }),
{
}

/// Of several commits that take effect, the last decides.
pub proof fn law_last_commit_decides(
    surface: SurfaceView,
    first: ColorManagementSurfaceCachedState,
    second: ColorManagementSurfaceCachedState,
)
    ensures
        surface.apply(first).apply(second) == surface.apply(second),
{
}

/// Setting what is set already changes nothing and is not reported as a change.
pub proof fn law_reattaching_is_no_change(
    state: StateView,
    surface: SurfaceView,
    request: SurfaceRequest,
)
    requires
        request.refusal(state, true) is None,
    ensures
        ({
            let once = surface.set_pending(request.pending_after(surface.pending));
            &&& once.pending == request.pending_after(once.pending)
            &&& once.set_pending(request.pending_after(once.pending)) == once
        }),
{
}

/// A description that a client attaches is what is read back after its next commit took effect, with
/// the rendering intent it asked for.
pub proof fn law_attached_is_read_back(
    state: StateView,
    surface: SurfaceView,
    desc: ImageDescription,
    code: u32,
)
    ensures
        ({
            let request = SurfaceRequest::SetImageDescription {
                image_description: Some(desc),
                render_intent: code,
            };
            let set = surface.set_pending(request.pending_after(surface.pending));
            let read = set.apply(set.pending).current;
            request.refusal(state, true) is None ==> {
                &&& read.description == Some(desc)
                &&& RenderIntent::of_code(code) == Some(read.render_intent)
                &&& read.render_intent.code() == code
            }
        }),
{
}

/// Whether a double-buffered state is one that clients can bring about: a supported rendering
/// intent, which is the perceptual one where there is no description.
pub open spec fn is_sound(state: StateView, cached: ColorManagementSurfaceCachedState) -> bool {
    &&& state.supported_intents.contains(cached.render_intent)
    &&& cached.description is None ==> cached.render_intent == RenderIntent::Perceptual
}

/// Whether both the pending and the committed state are such.
pub open spec fn is_sound_surface(state: StateView, surface: SurfaceView) -> bool {
    is_sound(state, surface.pending) && is_sound(state, surface.current)
}

/// A surface is sound from the start, and stays so: only supported rendering intents are ever
/// pending, cached by a commit, or committed.
pub proof fn law_surfaces_stay_sound(
    state: StateView,
    later: StateView,
    surface: SurfaceView,
    request: SurfaceRequest,
    cached: ColorManagementSurfaceCachedState,
    feedback: u64,
    identity: u32,
    live: Seq<u64>,
)
    requires
        state.wf(),
        evolves(state, later),
        is_sound_surface(state, surface),
    ensures
        is_sound_surface(state, SurfaceView::untouched()),
        is_sound_surface(later, surface),
        request.refusal(state, true) is None ==> is_sound_surface(
            state,
            surface.set_pending(request.pending_after(surface.pending)),
        ),
        is_sound(state, surface.pending),
        is_sound(state, cached) ==> is_sound_surface(state, surface.apply(cached)),
        is_sound_surface(state, surface.attach()),
        is_sound_surface(state, surface.detach()),
        is_sound_surface(state, surface.track(feedback)),
        is_sound_surface(state, surface.untrack(feedback)),
        is_sound_surface(state, surface.notified(identity, live)),
{
}

/// Destroying a `wp_color_management_surface_v1` does to the pending state what
/// `unset_image_description` does, and is reported as a change in the same cases, where the intent
/// is the perceptual one while no description is pending.
pub proof fn law_destroying_unsets(state: StateView, surface: SurfaceView)
    requires
        surface.pending.description is None ==> surface.pending.render_intent
            == RenderIntent::Perceptual,
    ensures
        SurfaceRequest::UnsetImageDescription.refusal(state, true) is None,
        surface.detach().pending == SurfaceRequest::UnsetImageDescription.pending_after(
            surface.pending,
        ),
        surface.detach().current == surface.current,
        (surface.pending.description is Some) == (surface.pending
            != SurfaceRequest::UnsetImageDescription.pending_after(surface.pending)),
{
}

/// At most one `wp_color_management_surface_v1` is attached to a surface: attaching another one is
/// refused and leaves the surface as it is, until the first is destroyed.
pub proof fn law_one_object_per_surface(
    surface: SurfaceView,
    cached: ColorManagementSurfaceCachedState,
    feedback: u64,
    identity: u32,
    live: Seq<u64>,
)
    ensures
        !SurfaceView::untouched().is_attached(),
        surface.attach().is_attached(),
        surface.is_attached() ==> surface.attach() == surface,
        !surface.detach().is_attached(),
        surface.set_pending(cached).is_attached() == surface.is_attached(),
        surface.apply(cached).is_attached() == surface.is_attached(),
        surface.track(feedback).is_attached() == surface.is_attached(),
        surface.untrack(feedback).is_attached() == surface.is_attached(),
        surface.notified(identity, live).is_attached() == surface.is_attached(),
{
}

// ---- creators ----

/// Whether everything set so far is something that clients may use.
pub open spec fn is_supported(state: StateView, params: ParamsView) -> bool {
    &&& params.transfer is Some ==> state.supported_tfs.contains(params.transfer->0)
    &&& params.primaries is Some ==> state.supported_primaries.contains(params.primaries->0)
    &&& params.luminances is Some ==> state.supported_features.contains(Feature::SetLuminances)
}

/// Only what is advertised is accepted: parameters are supported from the start and stay so, also
/// while the state evolves.
pub proof fn law_parameters_stay_supported(
    before: StateView,
    after: StateView,
    params: ParamsView,
    request: ParamsRequest,
)
    requires
        is_supported(before, params),
        evolves(before, after),
    ensures
        is_supported(before, ParamsView::blank()),
        is_supported(after, params),
        request.refusal(before, params) is None ==> is_supported(
            before,
            request.params_after(params),
        ),
{
}

/// A created description has a supported transfer function and supported primaries.
pub proof fn law_created_is_supported(
    state: StateView,
    params: ParamsView,
    request: ParamsRequest,
)
    requires
        is_supported(state, params),
        request.answer(params) is Some,
    ensures
        state.supported_tfs.contains(request.answer(params)->0.transfer),
        state.supported_primaries.contains(request.answer(params)->0.primaries),
{
}

/// A request that names something that is not advertised is refused.
pub proof fn law_unadvertised_is_refused(
    state: StateView,
    params: ParamsView,
    code: u32,
    image_description: Option<ImageDescription>,
)
    ensures
        !supports_tf_code(state, code) ==> (ParamsRequest::SetTfNamed { tf: code }).refusal(
            state,
            params,
        ) is Some,
        !supports_primaries_code(state, code) ==> (ParamsRequest::SetPrimariesNamed {
            primaries: code,
        }).refusal(state, params) is Some,
        !supports_intent_code(state, code) ==> (SurfaceRequest::SetImageDescription {
            image_description,
            render_intent: code,
        }).refusal(state, true) is Some,
{
}

/// The transfer function and the primaries are set at most once: no accepted request changes one
/// that is set.
pub proof fn law_named_parameters_are_set_once(
    state: StateView,
    params: ParamsView,
    request: ParamsRequest,
)
    requires
        request.refusal(state, params) is None,
    ensures
        params.transfer is Some ==> request.params_after(params).transfer == params.transfer,
        params.primaries is Some ==> request.params_after(params).primaries == params.primaries,
{
}

/// A description is created exactly when the required parameters are set, and it is refused
/// otherwise.
pub proof fn law_create_needs_both(state: StateView, params: ParamsView)
    ensures
        ParamsRequest::Create.refusal(state, params) is None <==> params.transfer is Some
            && params.primaries is Some,
        ParamsRequest::Create.answer(params) is Some <==> ParamsRequest::Create.refusal(
            state,
            params,
        ) is None,
        ParamsRequest::Create.params_after(params) == params,
{
}

/// An accepted request changes no parameter but the one it sets.
pub proof fn law_requests_keep_other_parameters(
    params: ParamsView,
    request: ParamsRequest,
)
    ensures
        request !is SetTfNamed ==> request.params_after(params).transfer == params.transfer,
        request !is SetPrimariesNamed ==> request.params_after(params).primaries
            == params.primaries,
        request !is SetMaxCll ==> request.params_after(params).max_cll == params.max_cll,
        request !is SetMaxFall ==> request.params_after(params).max_fall == params.max_fall,
        request !is SetMasteringLuminance ==> request.params_after(params).mastering_luminance
            == params.mastering_luminance,
        request !is SetLuminances ==> request.params_after(params).luminances == params.luminances,
{
}

// ---- advertising and information ----

/// A client that binds the global is told of exactly what is supported, which always has the
/// perceptual rendering intent and the parametric feature in it; `done` comes last and only there.
pub proof fn law_binding_advertises(
    state: StateView,
    tf: TransferFunction,
    primaries: Primaries,
    feature: Feature,
    intent: RenderIntent,
)
    requires
        state.wf(),
    ensures
        bind_events(state).contains(
            (ManagerEvent::SupportedIntent { intent: RenderIntent::Perceptual }),
        ),
        bind_events(state).contains(
            (ManagerEvent::SupportedFeature { feature: Feature::Parametric }),
        ),
        bind_events(state).contains((ManagerEvent::SupportedIntent { intent }))
            <==> state.supported_intents.contains(intent),
        bind_events(state).contains((ManagerEvent::SupportedFeature { feature }))
            <==> state.supported_features.contains(feature),
        bind_events(state).contains((ManagerEvent::SupportedTfNamed { tf }))
            <==> state.supported_tfs.contains(tf),
        bind_events(state).contains((ManagerEvent::SupportedPrimariesNamed { primaries }))
            <==> state.supported_primaries.contains(primaries),
        bind_events(state).last() == ManagerEvent::Done,
        forall|i: int|
            0 <= i < bind_events(state).len() - 1 ==> bind_events(state)[i] != ManagerEvent::Done,
{
    lemma_advertised(state, tf, primaries, feature, intent);
    lemma_advertised(state, tf, primaries, Feature::Parametric, RenderIntent::Perceptual);
}

/// What is supported and what the events at binding say is the same.
proof fn lemma_advertised(
    state: StateView,
    tf: TransferFunction,
    primaries: Primaries,
    feature: Feature,
    intent: RenderIntent,
)
    ensures
        bind_events(state).contains((ManagerEvent::SupportedIntent { intent }))
            <==> state.supported_intents.contains(intent),
        bind_events(state).contains((ManagerEvent::SupportedFeature { feature }))
            <==> state.supported_features.contains(feature),
        bind_events(state).contains((ManagerEvent::SupportedTfNamed { tf }))
            <==> state.supported_tfs.contains(tf),
        bind_events(state).contains((ManagerEvent::SupportedPrimariesNamed { primaries }))
            <==> state.supported_primaries.contains(primaries),
{
    let events = bind_events(state);
    let features_at = state.supported_intents.len();
    let tfs_at = features_at + state.supported_features.len();
    let primaries_at = tfs_at + state.supported_tfs.len();
    if state.supported_intents.contains(intent) {
        let i = state.supported_intents.index_of(intent);
        assert(events[i] == ManagerEvent::SupportedIntent { intent });
    }
    if state.supported_features.contains(feature) {
        let i = state.supported_features.index_of(feature);
        assert(events[features_at + i] == ManagerEvent::SupportedFeature { feature });
    }
    if state.supported_tfs.contains(tf) {
        let i = state.supported_tfs.index_of(tf);
        assert(events[tfs_at + i] == ManagerEvent::SupportedTfNamed { tf });
    }
    if state.supported_primaries.contains(primaries) {
        let i = state.supported_primaries.index_of(primaries);
        assert(events[primaries_at + i] == ManagerEvent::SupportedPrimariesNamed { primaries });
    }
    if events.contains((ManagerEvent::SupportedIntent { intent })) {
        let i = events.index_of(ManagerEvent::SupportedIntent { intent });
        assert(state.supported_intents[i] == intent);
    }
    if events.contains((ManagerEvent::SupportedFeature { feature })) {
        let i = events.index_of(ManagerEvent::SupportedFeature { feature });
        assert(state.supported_features[i - features_at] == feature);
    }
    if events.contains((ManagerEvent::SupportedTfNamed { tf })) {
        let i = events.index_of(ManagerEvent::SupportedTfNamed { tf });
        assert(state.supported_tfs[i - tfs_at] == tf);
    }
    if events.contains((ManagerEvent::SupportedPrimariesNamed { primaries })) {
        let i = events.index_of(ManagerEvent::SupportedPrimariesNamed { primaries });
        assert(state.supported_primaries[i - primaries_at] == primaries);
    }
}

/// The information about a description names its primaries and its transfer function first, and
/// ends in the destructor `done`, which comes only there.
pub proof fn law_information_ends_in_done(desc: ImageDescription)
    ensures
        info_events(desc).len() >= 3,
        info_events(desc)[0] == (InfoEvent::PrimariesNamed { primaries: desc.primaries }),
        info_events(desc)[1] == (InfoEvent::TfNamed { tf: desc.transfer }),
        info_events(desc).last() == InfoEvent::Done,
        forall|i: int|
            0 <= i < info_events(desc).len() - 1 ==> info_events(desc)[i] != InfoEvent::Done,
{
}

/// The information about a description tells its mastering luminance and its light levels exactly
/// where it has them.
pub proof fn law_information_tells_the_targets(desc: ImageDescription, min_lum: u32, max_lum: u32)
    ensures
        info_events(desc).contains((InfoEvent::TargetLuminance { min_lum, max_lum }))
            <==> desc.mastering_luminance == Some((min_lum, max_lum)),
        info_events(desc).contains((InfoEvent::TargetMaxCll { max_cll: max_lum }))
            <==> desc.max_cll == Some(max_lum),
        info_events(desc).contains((InfoEvent::TargetMaxFall { max_fall: max_lum }))
            <==> desc.max_fall == Some(max_lum),
{
    let events = info_events(desc);
    let cll_at = 2 + target_luminance_events(desc).len();
    let fall_at = cll_at + target_max_cll_events(desc).len();
    if desc.mastering_luminance == Some((min_lum, max_lum)) {
        assert(events[2] == InfoEvent::TargetLuminance { min_lum, max_lum });
    }
    if desc.max_cll == Some(max_lum) {
        assert(events[cll_at as int] == InfoEvent::TargetMaxCll { max_cll: max_lum });
    }
    if desc.max_fall == Some(max_lum) {
        assert(events[fall_at as int] == InfoEvent::TargetMaxFall { max_fall: max_lum });
    }
}

/// Descriptions that are reported alike differ at most in their content luminances.
pub proof fn law_information_tells_descriptions_apart(a: ImageDescription, b: ImageDescription)
    requires
        info_events(a) == info_events(b),
    ensures
        a == (ImageDescription { luminances: a.luminances, ..b }),
{
    law_information_ends_in_done(a);
    law_information_ends_in_done(b);
    lemma_targets_are_told(a, b);
    lemma_targets_are_told(b, a);
}

/// What one description has of mastering luminance and light levels, so has another that is reported
/// alike.
proof fn lemma_targets_are_told(a: ImageDescription, b: ImageDescription)
    requires
        info_events(a) == info_events(b),
    ensures
        a.mastering_luminance is Some ==> b.mastering_luminance == a.mastering_luminance,
        a.max_cll is Some ==> b.max_cll == a.max_cll,
        a.max_fall is Some ==> b.max_fall == a.max_fall,
{
    if let Some(range) = a.mastering_luminance {
        law_information_tells_the_targets(a, range.0, range.1);
        law_information_tells_the_targets(b, range.0, range.1);
    }
    if let Some(level) = a.max_cll {
        law_information_tells_the_targets(a, 0, level);
        law_information_tells_the_targets(b, 0, level);
    }
    if let Some(level) = a.max_fall {
        law_information_tells_the_targets(a, 0, level);
        law_information_tells_the_targets(b, 0, level);
    }
}

} // verus!
