//! Laws of calls: what goes into a call of the library, what comes out of it, and how several calls
//! fit together. Each speaks of every call that keeps to the contract of the function it names.

use vstd::prelude::*;

use crate::description::{
    send_image_description_info, ImageDescription, ImageDescriptionBuilder, ImageDescriptionData,
    InfoEvent, ParamsView,
};
use crate::handler::ColorManagementGlobalData;
use crate::laws::{law_primaries_codes, law_render_intent_codes, law_transfer_function_codes};
use crate::lookup::{restricted, without};
use crate::request::{
    feedback_destroyed, image_description_request, surface_destroyed, FeedbackError,
    FeedbackRequest, ImageDescriptionRequest, ManagerError, ManagerReply, ManagerRequest,
    OutputRequest, ParamsError, ParamsRequest, ProtocolError, SurfaceError, SurfaceRequest,
};
use crate::state::{
    is_live, is_live_on, ColorManagementState, LiveOutputObject, ManagerEvent, PreferredChanged,
    ReadyDescription, StateView,
};
use crate::surface::{
    get_surface_description, set_pending_description, ColorManagementSurfaceCachedState,
    ColorManagementSurfaceData, SurfaceDataView, SurfaceStates, SurfaceView,
};
use crate::wire::{Feature, Primaries, RenderIntent, TransferFunction};

verus! {

// ---- readied descriptions ----

/// Whether `desc` is listed in the table as number `identity`, and the table has at most grown by
/// it, with everything else in the state as it was.
pub open spec fn has_come_to_know(
    before: StateView,
    after: StateView,
    desc: ImageDescription,
    identity: u32,
) -> bool {
    &&& 1 <= identity <= after.identities.len()
    &&& after.identities[identity - 1] == desc
    &&& before.identities.contains(desc) ==> after.identities == before.identities
    &&& !before.identities.contains(desc) ==> after.identities == before.identities.push(desc)
    &&& after == (StateView { identities: after.identities, ..before })
}

/// A description is given its place in the table, which grows only by what it did not have.
pub proof fn law_identity_for_gives_a_place(
    state: &mut ColorManagementState,
    desc: ImageDescription,
    identity: u32,
)
    requires
        old(state).wf(),
        call_ensures(ColorManagementState::identity_for, (state, desc), identity),
    ensures
        has_come_to_know(old(state)@, final(state)@, desc, identity),
{
}

/// A description is readied as it is, every field the same, under its place in the table.
pub proof fn law_ready_description_is_as_given(
    state: &mut ColorManagementState,
    desc: ImageDescription,
    ready: ReadyDescription,
)
    requires
        old(state).wf(),
        call_ensures(ColorManagementState::make_ready_description, (state, desc), ready),
    ensures
        ready.data@ == desc,
        has_come_to_know(old(state)@, final(state)@, desc, ready.identity),
{
    lemma_known_place(old(state)@, desc);
}

/// `get_image_description` of an output readies exactly the description that the compositor gives
/// for the output, or sRGB where there is no output; every other request readies nothing and leaves
/// the state as it is.
pub proof fn law_output_is_described_as_given(
    state: &mut ColorManagementState,
    described: Option<ImageDescription>,
    request: OutputRequest,
    ready: Option<ReadyDescription>,
)
    requires
        old(state).wf(),
        request is GetImageDescription ==> request->described == described,
        call_ensures(ColorManagementState::output_request, (state, request), ready),
    ensures
        ready is Some <==> request is GetImageDescription,
        ready is Some && described is Some ==> ready->0.data@ == described->0,
        ready is Some && described is None ==> ready->0.data@ == ImageDescription::srgb(),
        ready is Some ==> has_come_to_know(
            old(state)@,
            final(state)@,
            ready->0.data@,
            ready->0.identity,
        ),
        ready is None ==> final(state)@ == old(state)@,
{
    if ready is Some {
        lemma_known_place(old(state)@, ready->0.data@);
    }
}

/// `get_preferred` and `get_preferred_parametric` ready exactly the description that the compositor
/// prefers for the surface, and are refused as inert where the surface is gone; every other request
/// readies nothing. Where nothing is readied, the state is left as it is.
pub proof fn law_preference_is_answered_as_given(
    state: &mut ColorManagementState,
    preferred: Option<ImageDescription>,
    request: FeedbackRequest,
    reply: Result<Option<ReadyDescription>, ProtocolError<FeedbackError>>,
)
    requires
        old(state).wf(),
        request is GetPreferred ==> request->GetPreferred_preferred == preferred,
        request is GetPreferredParametric ==> request->GetPreferredParametric_preferred
            == preferred,
        call_ensures(ColorManagementState::feedback_request, (state, request), reply),
    ensures
        ({
            let asks = request is GetPreferred || request is GetPreferredParametric;
            &&& asks && preferred is Some ==> {
                &&& reply is Ok
                &&& reply->Ok_0 is Some
                &&& reply->Ok_0->0.data@ == preferred->0
                &&& has_come_to_know(
                    old(state)@,
                    final(state)@,
                    preferred->0,
                    reply->Ok_0->0.identity,
                )
            }
            &&& asks && preferred is None ==> reply == Err::<Option<ReadyDescription>, _>(
                (ProtocolError {
                    error: FeedbackError::Inert,
                    message: "the underlying wl_surface was destroyed",
                }),
            )
            &&& !asks ==> reply is Ok && reply->Ok_0 is None
            &&& !asks || preferred is None ==> final(state)@ == old(state)@
        }),
{
    if preferred is Some {
        lemma_known_place(old(state)@, preferred->0);
    }
}

/// What an object represents is what it was readied with, and what information about it describes.
pub proof fn law_information_describes_the_object(
    desc: ImageDescription,
    data: ImageDescriptionData,
    shown: ImageDescription,
    request: ImageDescriptionRequest,
    described: Option<ImageDescription>,
)
    requires
        call_ensures(ImageDescriptionData::new, (desc,), data),
        call_ensures(ImageDescriptionData::description, (&data,), shown),
        call_ensures(image_description_request, (&data, request), described),
    ensures
        shown == desc,
        data@ == desc,
        request is GetInformation ==> described == Some(desc),
        request !is GetInformation ==> described is None,
{
}

/// Where a known or new description stands in the table.
proof fn lemma_known_place(state: StateView, desc: ImageDescription)
    requires
        state.wf(),
    ensures
        ({
            let known = state.register(desc);
            &&& known.identities.contains(desc)
            &&& 0 <= known.identities.index_of(desc) < known.identities.len()
            &&& known.identities[known.identities.index_of(desc)] == desc
        }),
{
    if !state.identities.contains(desc) {
        assert(state.identities.push(desc).last() == desc);
    }
    assert(state.register(desc).identities.contains(desc));
}

// ---- notices ----

/// A notice that is news is told to each tracked feedback object that is alive, in the order of
/// their creation, one event for each, and every event carries the number under which the described
/// preference stands in the table. Otherwise nobody is told. Only what the notice concerns changes.
pub proof fn law_notice_carries_the_identity(
    state: &mut ColorManagementState,
    surface: &mut SurfaceStates,
    desc: ImageDescription,
    live: &Vec<u64>,
    identity: u32,
    events: Vec<PreferredChanged>,
)
    requires
        old(state).wf(),
        call_ensures(ColorManagementState::preferred_changed, (state, surface, desc, live), events),
        1 <= identity <= final(state)@.identities.len(),
        final(state)@.identities[identity - 1] == desc,
    ensures
        has_come_to_know(old(state)@, final(state)@, desc, identity),
        ({
            let news = old(surface)@.data is Some && old(surface)@.data->0.last_preferred != Some(
                identity,
            );
            &&& !news ==> events@.len() == 0 && final(surface)@ == old(surface)@
            &&& news ==> {
                let told = old(surface)@.data->0.feedbacks.filter(|f: u64| live@.contains(f));
                &&& events@.len() == told.len()
                &&& forall|i: int|
                    0 <= i < told.len() ==> (#[trigger] events@[i]).feedback == told[i]
                        && events@[i].identity == identity
                &&& final(surface)@ == (SurfaceView {
                    data: Some(
                        SurfaceDataView {
                            attached: old(surface)@.data->0.attached,
                            feedbacks: told,
                            last_preferred: Some(identity),
                        },
                    ),
                    pending: old(surface)@.pending,
                    current: old(surface)@.current,
                })
            }
        }),
{
    lemma_known_place(old(state)@, desc);
    assert(final(state)@.identities.no_duplicates());
    if old(surface)@.data is Some {
        let feedbacks = old(surface)@.data->0.feedbacks;
        lemma_restricted(feedbacks, live@);
    }
}

/// The identity in every event of a notice is the one under which `get_preferred` readies the
/// description later, while the table has at most grown.
pub proof fn law_notice_and_answer_match(
    state: &mut ColorManagementState,
    surface: &mut SurfaceStates,
    desc: ImageDescription,
    live: &Vec<u64>,
    events: Vec<PreferredChanged>,
    later: &mut ColorManagementState,
    request: FeedbackRequest,
    reply: Result<Option<ReadyDescription>, ProtocolError<FeedbackError>>,
    i: int,
)
    requires
        old(state).wf(),
        call_ensures(ColorManagementState::preferred_changed, (state, surface, desc, live), events),
        old(later).wf(),
        final(state)@.identities.is_prefix_of(old(later)@.identities),
        request == (FeedbackRequest::GetPreferred { preferred: Some(desc) }) || request == (
        FeedbackRequest::GetPreferredParametric { preferred: Some(desc) }),
        call_ensures(ColorManagementState::feedback_request, (later, request), reply),
        0 <= i < events@.len(),
    ensures
        reply is Ok,
        reply->Ok_0 is Some,
        reply->Ok_0->0.data@ == desc,
        reply->Ok_0->0.identity == events@[i].identity,
        final(later)@ == old(later)@,
{
    lemma_known_place(old(state)@, desc);
    let place = final(state)@.identities.index_of(desc);
    let identity = (place + 1) as u32;
    law_notice_carries_the_identity(state, surface, desc, live, identity, events);
    law_preference_is_answered_as_given(later, Some(desc), request, reply);
    assert(old(later)@.identities[place] == desc);
}

/// A second notice of the same description to a surface is silent, while the table has at most grown
/// and the surface still remembers the first.
pub proof fn law_second_notice_is_silent(
    state: &mut ColorManagementState,
    surface: &mut SurfaceStates,
    desc: ImageDescription,
    live: &Vec<u64>,
    events: Vec<PreferredChanged>,
    later: &mut ColorManagementState,
    surface_later: &mut SurfaceStates,
    live_later: &Vec<u64>,
    events_later: Vec<PreferredChanged>,
)
    requires
        old(state).wf(),
        old(surface)@.data is Some,
        call_ensures(ColorManagementState::preferred_changed, (state, surface, desc, live), events),
        old(later).wf(),
        final(state)@.identities.is_prefix_of(old(later)@.identities),
        old(surface_later)@.data is Some,
        old(surface_later)@.data->0.last_preferred == final(surface)@.data->0.last_preferred,
        call_ensures(
            ColorManagementState::preferred_changed,
            (later, surface_later, desc, live_later),
            events_later,
        ),
    ensures
        events_later@.len() == 0,
        final(later)@ == old(later)@,
        final(surface_later)@ == old(surface_later)@,
{
    lemma_known_place(old(state)@, desc);
    let place = final(state)@.identities.index_of(desc);
    let identity = (place + 1) as u32;
    law_notice_carries_the_identity(state, surface, desc, live, identity, events);
    assert(old(later)@.identities[place] == desc);
    assert(final(later)@.identities[place] == desc);
    law_notice_carries_the_identity(
        later,
        surface_later,
        desc,
        live_later,
        identity,
        events_later,
    );
}

/// A change of an output is told to each tracked object that is alive and of that output, in the
/// order of their creation. Objects that are dead are forgotten, and nothing else changes.
pub proof fn law_output_change_is_told(
    state: &mut ColorManagementState,
    output: u64,
    live: &Vec<LiveOutputObject>,
    notified: Vec<u64>,
)
    requires
        old(state).wf(),
        call_ensures(
            ColorManagementState::output_description_changed,
            (state, output, live),
            notified,
        ),
    ensures
        notified@ == old(state)@.output_objects.filter(
            |o: u64| live@.contains((LiveOutputObject { object: o, output: Some(output) })),
        ),
        final(state)@ == (StateView {
            output_objects: old(state)@.output_objects.filter(
                |o: u64|
                    exists|i: int| 0 <= i < live@.len() && (#[trigger] live@[i]).object == o,
            ),
            ..old(state)@
        }),
{
    let objects = old(state)@.output_objects;
    let alive = |o: u64| exists|i: int| 0 <= i < live@.len() && (#[trigger] live@[i]).object == o;
    let shown = |o: u64| live@.contains((LiveOutputObject { object: o, output: Some(output) }));
    let alive_known = |object: u64| is_live(live@, object);
    let shown_known = |object: u64| is_live_on(live@, object, output);
    assert(alive =~= alive_known);
    assert(shown =~= shown_known);
    assert forall|o: u64| #[trigger] shown(o) implies alive(o) by {
        let entry = LiveOutputObject { object: o, output: Some(output) };
        let i = choose|i: int| 0 <= i < live@.len() && live@[i] == entry;
        assert(live@[i].object == o);
    }
    lemma_filter_of_filter(objects, alive, shown);
}

/// Filtering by a weaker condition first makes no difference.
proof fn lemma_filter_of_filter<T>(
    list: Seq<T>,
    weak: spec_fn(T) -> bool,
    strong: spec_fn(T) -> bool,
)
    requires
        forall|item: T| #[trigger] strong(item) ==> weak(item),
    ensures
        list.filter(weak).filter(strong) == list.filter(strong),
    decreases list.len(),
{
    reveal(Seq::filter);
    if list.len() > 0 {
        let rest = list.drop_last();
        lemma_filter_of_filter(rest, weak, strong);
        if weak(list.last()) {
            rest.filter(weak).lemma_filter_push(list.last(), strong);
        }
    }
}

/// What a list of keys restricted to others is.
proof fn lemma_restricted(list: Seq<u64>, kept: Seq<u64>)
    ensures
        restricted(list, kept) == list.filter(|f: u64| kept.contains(f)),
{
    assert((|item: u64| kept.contains(item)) =~= (|f: u64| kept.contains(f)));
}

// ---- surfaces ----

/// `set_image_description` on a live surface is accepted exactly when the number of the intent is
/// that of an advertised one and the description is there. It then becomes pending with that
/// intent, and it is told whether that is a change. A refused request leaves the surface as it is.
pub proof fn law_attaching_needs_an_advertised_intent(
    state: &ColorManagementState,
    surface: &mut SurfaceStates,
    image_description: Option<ImageDescription>,
    code: u32,
    reply: Result<bool, ProtocolError<SurfaceError>>,
)
    requires
        call_ensures(
            ColorManagementState::surface_request,
            (
                state,
                Some(surface),
                SurfaceRequest::SetImageDescription { image_description, render_intent: code },
            ),
            reply,
        ),
    ensures
        ({
            let advertised = exists|intent: RenderIntent|
                #[trigger] state@.supported_intents.contains(intent) && intent.code() == code;
            &&& !advertised ==> reply == Err::<bool, _>(
                (ProtocolError {
                    error: SurfaceError::RenderIntent,
                    message: "unsupported rendering intent",
                }),
            )
            &&& advertised && image_description is None ==> reply == Err::<bool, _>(
                (ProtocolError {
                    error: SurfaceError::ImageDescription,
                    message: "image description is not ready",
                }),
            )
            &&& !advertised || image_description is None ==> final(surface)@ == old(surface)@
            &&& advertised && image_description is Some ==> {
                &&& reply is Ok
                &&& reply->Ok_0 == (final(surface)@.pending != old(surface)@.pending)
                &&& final(surface)@.pending.description == image_description
                &&& final(surface)@.pending.render_intent.code() == code
                &&& final(surface)@.current == old(surface)@.current
                &&& final(surface)@.data == old(surface)@.data
            }
        }),
{
    if let Some(intent) = RenderIntent::of_code(code) {
        law_render_intent_codes(intent, code);
    }
    assert forall|intent: RenderIntent| intent.code() == code implies RenderIntent::of_code(code)
        == Some(intent) by {
        law_render_intent_codes(intent, code);
    }
}

/// `unset_image_description` on a live surface makes no description pending, with perceptual
/// rendering, and tells whether that is a change.
pub proof fn law_unsetting_clears_the_pending_description(
    state: &ColorManagementState,
    surface: &mut SurfaceStates,
    reply: Result<bool, ProtocolError<SurfaceError>>,
)
    requires
        call_ensures(
            ColorManagementState::surface_request,
            (state, Some(surface), SurfaceRequest::UnsetImageDescription),
            reply,
        ),
    ensures
        reply is Ok,
        reply->Ok_0 == (final(surface)@.pending != old(surface)@.pending),
        final(surface)@.pending.description is None,
        final(surface)@.pending.render_intent == RenderIntent::Perceptual,
        final(surface)@.current == old(surface)@.current,
        final(surface)@.data == old(surface)@.data,
{
}

/// A request that would set the pending state is refused as inert where the surface is gone. The
/// others are accepted, and change nothing, whether the surface is there or not.
pub proof fn law_surface_requests_without_effect(
    state: &ColorManagementState,
    surface: &mut SurfaceStates,
    request: SurfaceRequest,
    reply: Result<bool, ProtocolError<SurfaceError>>,
    reply_if_gone: Result<bool, ProtocolError<SurfaceError>>,
)
    requires
        call_ensures(ColorManagementState::surface_request, (state, Some(surface), request), reply),
        call_ensures(ColorManagementState::surface_request, (state, None, request), reply_if_gone),
    ensures
        request is SetImageDescription || request is UnsetImageDescription ==> reply_if_gone
            == Err::<bool, _>(
            (ProtocolError {
                error: SurfaceError::Inert,
                message: "the underlying wl_surface was destroyed",
            }),
        ),
        request is Destroy || request is Other ==> {
            &&& reply == Ok::<_, ProtocolError<SurfaceError>>(false)
            &&& reply_if_gone == Ok::<_, ProtocolError<SurfaceError>>(false)
            &&& final(surface)@ == old(surface)@
        },
{
}

/// What is set becomes pending as a whole, and is told to be a change exactly when the description
/// or the intent was another.
pub proof fn law_setting_replaces_the_pending_state(
    surface: &mut SurfaceStates,
    description: Option<ImageDescription>,
    render_intent: RenderIntent,
    changed: bool,
)
    requires
        call_ensures(
            set_pending_description,
            (surface, description, render_intent),
            changed,
        ),
    ensures
        final(surface)@.pending.description == description,
        final(surface)@.pending.render_intent == render_intent,
        final(surface)@.current == old(surface)@.current,
        final(surface)@.data == old(surface)@.data,
        !changed <==> old(surface)@.pending.description == description && old(
            surface,
        )@.pending.render_intent == render_intent,
{
}

/// What is set is read back after the commit that followed took effect, and not before, whatever
/// is set in between.
pub proof fn law_set_is_read_back_after_commit(
    untouched: SurfaceStates,
    first: &mut SurfaceStates,
    description: Option<ImageDescription>,
    render_intent: RenderIntent,
    changed: bool,
    second: &mut SurfaceStates,
    cached: ColorManagementSurfaceCachedState,
    third: &mut SurfaceStates,
    description_later: Option<ImageDescription>,
    render_intent_later: RenderIntent,
    changed_later: bool,
    fourth: &mut SurfaceStates,
    read_first: (Option<ImageDescription>, RenderIntent),
    read_before: (Option<ImageDescription>, RenderIntent),
    read_after: (Option<ImageDescription>, RenderIntent),
)
    requires
        call_ensures(SurfaceStates::default, (), untouched),
        call_ensures(get_surface_description, (&untouched,), read_first),
        old(first)@.current == untouched@.current,
        call_ensures(set_pending_description, (first, description, render_intent), changed),
        *old(second) == *final(first),
        call_ensures(SurfaceStates::commit, (second,), cached),
        *old(third) == *final(second),
        call_ensures(
            set_pending_description,
            (third, description_later, render_intent_later),
            changed_later,
        ),
        *old(fourth) == *final(third),
        call_ensures(get_surface_description, (&*old(fourth),), read_before),
        call_ensures(SurfaceStates::apply, (fourth, cached), ()),
        call_ensures(get_surface_description, (&*final(fourth),), read_after),
    ensures
        read_first == (None::<ImageDescription>, RenderIntent::Perceptual),
        read_before == read_first,
        cached.description == description,
        cached.render_intent == render_intent,
        read_after == (description, render_intent),
        final(fourth)@.pending.description == description_later,
        final(fourth)@.pending.render_intent == render_intent_later,
        final(fourth)@.data == old(first)@.data,
{
}

/// A commit caches what is pending and leaves the surface as it is. When it takes effect, what it
/// cached is committed, and the pending state and the bookkeeping stay.
pub proof fn law_commit_touches_nothing_else(
    committing: &mut SurfaceStates,
    cached: ColorManagementSurfaceCachedState,
    applying: &mut SurfaceStates,
)
    requires
        call_ensures(SurfaceStates::commit, (committing,), cached),
        call_ensures(SurfaceStates::apply, (applying, cached), ()),
    ensures
        final(committing)@ == old(committing)@,
        cached == old(committing)@.pending,
        final(applying)@.current == cached,
        final(applying)@.pending == old(applying)@.pending,
        final(applying)@.data == old(applying)@.data,
{
}

/// A cached state is a copy of the pending one, which it leaves as it is, and replaces the one that
/// it is applied to as a whole.
pub proof fn law_cached_state_replaces_the_earlier(
    pending: &mut ColorManagementSurfaceCachedState,
    cached: ColorManagementSurfaceCachedState,
    into: &mut ColorManagementSurfaceCachedState,
)
    requires
        call_ensures(ColorManagementSurfaceCachedState::commit, (pending,), cached),
        call_ensures(ColorManagementSurfaceCachedState::merge_into, (cached, into), ()),
    ensures
        cached == *old(pending),
        *final(pending) == *old(pending),
        *final(into) == *old(pending),
{
}

/// On a new surface nothing is attached, tracked, notified, pending or committed.
pub proof fn law_new_surface_has_nothing_set(
    surface: SurfaceStates,
    cached: ColorManagementSurfaceCachedState,
    data: ColorManagementSurfaceData,
)
    requires
        call_ensures(SurfaceStates::default, (), surface),
        call_ensures(ColorManagementSurfaceCachedState::default, (), cached),
        call_ensures(ColorManagementSurfaceData::default, (), data),
    ensures
        surface@.data is None,
        surface@.pending == cached,
        surface@.current == cached,
        cached.description is None,
        cached.render_intent == RenderIntent::Perceptual,
        !data@.attached,
        data@.feedbacks.len() == 0,
        data@.last_preferred is None,
{
}

/// Destroying a `wp_color_management_surface_v1` clears the pending state and frees the surface for
/// another one. It is told to be a change exactly when a description was pending. The committed
/// state, the feedback objects and the last notice stay.
pub proof fn law_destroying_clears_the_pending_state(surface: &mut SurfaceStates, changed: bool)
    requires
        call_ensures(surface_destroyed, (Some(surface),), changed),
    ensures
        changed <==> old(surface)@.pending.description is Some,
        final(surface)@.pending.description is None,
        final(surface)@.pending.render_intent == RenderIntent::Perceptual,
        final(surface)@.current == old(surface)@.current,
        final(surface)@.data is Some <==> old(surface)@.data is Some,
        old(surface)@.data is Some ==> final(surface)@.data->0 == (SurfaceDataView {
            attached: false,
            ..old(surface)@.data->0
        }),
{
}

/// Where the surface is gone too, destroying its object is no change.
pub proof fn law_destroying_without_a_surface_is_no_change(changed: bool)
    requires
        call_ensures(surface_destroyed, (None,), changed),
    ensures
        !changed,
{
}

/// Destroying a feedback object drops it, and only it, from those that are told of changes.
pub proof fn law_destroyed_feedback_is_forgotten(surface: &mut SurfaceStates, feedback: u64)
    requires
        call_ensures(feedback_destroyed, (Some(surface), feedback), ()),
    ensures
        final(surface)@.pending == old(surface)@.pending,
        final(surface)@.current == old(surface)@.current,
        final(surface)@.data is Some <==> old(surface)@.data is Some,
        old(surface)@.data is Some ==> final(surface)@.data->0 == (SurfaceDataView {
            feedbacks: old(surface)@.data->0.feedbacks.filter(|f: u64| f != feedback),
            ..old(surface)@.data->0
        }),
{
    if old(surface)@.data is Some {
        lemma_without(old(surface)@.data->0.feedbacks, feedback, |f: u64| f != feedback);
    }
}

/// What a list without one of its elements is.
proof fn lemma_without<T>(list: Seq<T>, dropped: T, other: spec_fn(T) -> bool)
    requires
        forall|item: T| #[trigger] other(item) <==> item != dropped,
    ensures
        without(list, dropped) == list.filter(other),
{
    assert((|item: T| item != dropped) =~= other);
}

// ---- the manager ----

/// A surface takes one `wp_color_management_surface_v1` at a time: the first is initialized, and
/// another is refused as long as the first is there. Nothing else of the surface changes.
pub proof fn law_manager_attaches_one_object(
    state: &mut ColorManagementState,
    surface: &mut SurfaceStates,
    reply: Result<ManagerReply, ProtocolError<ManagerError>>,
)
    requires
        call_ensures(
            ColorManagementState::manager_request,
            (state, ManagerRequest::GetSurface { surface }),
            reply,
        ),
    ensures
        ({
            let attached = old(surface)@.data is Some && old(surface)@.data->0.attached;
            &&& attached ==> final(surface)@ == old(surface)@ && reply == Err::<ManagerReply, _>(
                (ProtocolError {
                    error: ManagerError::SurfaceExists,
                    message: "surface already has a wp_color_management_surface_v1",
                }),
            )
            &&& !attached ==> reply is Ok && reply->Ok_0 is InitSurface
            &&& final(surface)@.data is Some
            &&& final(surface)@.data->0.attached
            &&& old(surface)@.data is Some ==> final(surface)@.data->0 == (SurfaceDataView {
                attached: true,
                ..old(surface)@.data->0
            })
            &&& old(surface)@.data is None ==> {
                &&& final(surface)@.data->0.feedbacks.len() == 0
                &&& final(surface)@.data->0.last_preferred is None
            }
            &&& final(surface)@.pending == old(surface)@.pending
            &&& final(surface)@.current == old(surface)@.current
            &&& final(state)@ == old(state)@
        }),
{
}

/// A new feedback object is tracked behind those that the surface has; nothing else changes.
pub proof fn law_manager_tracks_the_feedback(
    state: &mut ColorManagementState,
    surface: &mut SurfaceStates,
    id: u64,
    reply: Result<ManagerReply, ProtocolError<ManagerError>>,
)
    requires
        call_ensures(
            ColorManagementState::manager_request,
            (state, ManagerRequest::GetSurfaceFeedback { id, surface }),
            reply,
        ),
    ensures
        reply is Ok,
        reply->Ok_0 is InitSurfaceFeedback,
        final(surface)@.data is Some,
        old(surface)@.data is Some ==> final(surface)@.data->0 == (SurfaceDataView {
            feedbacks: old(surface)@.data->0.feedbacks.push(id),
            ..old(surface)@.data->0
        }),
        old(surface)@.data is None ==> final(surface)@.data->0 == (SurfaceDataView {
            attached: false,
            feedbacks: seq![id],
            last_preferred: None,
        }),
        final(surface)@.pending == old(surface)@.pending,
        final(surface)@.current == old(surface)@.current,
        final(state)@ == old(state)@,
{
    if old(surface)@.data is None {
        assert(Seq::<u64>::empty().push(id) =~= seq![id]);
    }
}

/// A new output object is tracked behind those that there are; nothing else changes.
pub proof fn law_manager_tracks_the_output_object(
    state: &mut ColorManagementState,
    id: u64,
    reply: Result<ManagerReply, ProtocolError<ManagerError>>,
)
    requires
        call_ensures(
            ColorManagementState::manager_request,
            (state, ManagerRequest::GetOutput { id }),
            reply,
        ),
    ensures
        reply is Ok,
        reply->Ok_0 is InitOutput,
        final(state)@ == (StateView {
            output_objects: old(state)@.output_objects.push(id),
            ..old(state)@
        }),
{
}

/// A parametric creator starts without any parameter. ICC and Windows-scRGB descriptions are
/// refused, whatever is advertised. None of these changes the state, nor does `destroy`.
pub proof fn law_manager_creates_parametric_descriptions_only(
    state: &mut ColorManagementState,
    request: ManagerRequest,
    reply: Result<ManagerReply, ProtocolError<ManagerError>>,
)
    requires
        request !is GetOutput,
        call_ensures(ColorManagementState::manager_request, (state, request), reply),
    ensures
        final(state)@ == old(state)@,
        request is CreateParametricCreator ==> {
            &&& reply is Ok
            &&& reply->Ok_0 is InitParametricCreator
            &&& reply->Ok_0->builder@ == (ParamsView {
                transfer: None,
                primaries: None,
                max_cll: None,
                max_fall: None,
                mastering_luminance: None,
                luminances: None,
            })
        },
        request is CreateIccCreator ==> reply == Err::<ManagerReply, _>(
            (ProtocolError {
                error: ManagerError::UnsupportedFeature,
                message: "ICC image descriptions are not supported",
            }),
        ),
        request is CreateWindowsScrgb ==> reply == Err::<ManagerReply, _>(
            (ProtocolError {
                error: ManagerError::UnsupportedFeature,
                message: "Windows scRGB image descriptions are not supported",
            }),
        ),
        request is Destroy || request is Other ==> reply is Ok && reply->Ok_0 is Nothing,
{
}

// ---- creators ----

/// The number of the transfer function that a request sets, if it sets one.
pub open spec fn tf_set_by(request: ParamsRequest) -> Option<u32> {
    match request {
        ParamsRequest::SetTfNamed { tf } => Some(tf),
        _ => None,
    }
}

/// The number of the primaries that a request sets, if it sets them.
pub open spec fn primaries_set_by(request: ParamsRequest) -> Option<u32> {
    match request {
        ParamsRequest::SetPrimariesNamed { primaries } => Some(primaries),
        _ => None,
    }
}

/// The maximum content light level that a request sets, if it sets one.
pub open spec fn max_cll_set_by(request: ParamsRequest) -> Option<u32> {
    match request {
        ParamsRequest::SetMaxCll { max_cll } => Some(max_cll),
        _ => None,
    }
}

/// The maximum frame-average light level that a request sets, if it sets one.
pub open spec fn max_fall_set_by(request: ParamsRequest) -> Option<u32> {
    match request {
        ParamsRequest::SetMaxFall { max_fall } => Some(max_fall),
        _ => None,
    }
}

/// The mastering luminance that a request sets, if it sets one.
pub open spec fn mastering_luminance_set_by(request: ParamsRequest) -> Option<(u32, u32)> {
    match request {
        ParamsRequest::SetMasteringLuminance { min_lum, max_lum } => Some((min_lum, max_lum)),
        _ => None,
    }
}

/// The content luminances that a request sets, if it sets them.
pub open spec fn luminances_set_by(request: ParamsRequest) -> Option<(u32, u32, u32)> {
    match request {
        ParamsRequest::SetLuminances { min_lum, max_lum, reference_lum } => Some(
            (min_lum, max_lum, reference_lum),
        ),
        _ => None,
    }
}

/// What the last of the requests that set something has set.
pub open spec fn last_set<T>(
    history: Seq<ParamsRequest>,
    set_by: spec_fn(ParamsRequest) -> Option<T>,
) -> Option<T>
    decreases history.len(),
{
    if history.len() == 0 {
        None
    } else if set_by(history.last()) is Some {
        set_by(history.last())
    } else {
        last_set(history.drop_last(), set_by)
    }
}

/// Whether the parameters are what the accepted requests have set, from first to last: each the
/// value that was last set for it, independently of the others.
pub open spec fn reflects(params: ParamsView, accepted: Seq<ParamsRequest>) -> bool {
    let tf = last_set(accepted, |r: ParamsRequest| tf_set_by(r));
    let primaries = last_set(accepted, |r: ParamsRequest| primaries_set_by(r));
    &&& params.transfer is Some <==> tf is Some
    &&& tf is Some ==> params.transfer->0.code() == tf->0
    &&& params.primaries is Some <==> primaries is Some
    &&& primaries is Some ==> params.primaries->0.code() == primaries->0
    &&& params.max_cll == last_set(accepted, |r: ParamsRequest| max_cll_set_by(r))
    &&& params.max_fall == last_set(accepted, |r: ParamsRequest| max_fall_set_by(r))
    &&& params.mastering_luminance == last_set(
        accepted,
        |r: ParamsRequest| mastering_luminance_set_by(r),
    )
    &&& params.luminances == last_set(accepted, |r: ParamsRequest| luminances_set_by(r))
}

/// A new creator reflects that nothing was set.
pub proof fn law_new_creator_has_nothing_set(builder: ImageDescriptionBuilder)
    requires
        call_ensures(ImageDescriptionBuilder::default, (), builder),
    ensures
        reflects(builder@, Seq::empty()),
{
}

/// A creator keeps reflecting the requests that were accepted: one more if the request is, and no
/// other if it is refused.
pub proof fn law_creator_reflects_accepted_requests(
    state: &mut ColorManagementState,
    params: &mut ImageDescriptionBuilder,
    accepted: Seq<ParamsRequest>,
    request: ParamsRequest,
    reply: Result<Option<ReadyDescription>, ProtocolError<ParamsError>>,
)
    requires
        old(state).wf(),
        reflects(old(params)@, accepted),
        call_ensures(ColorManagementState::params_request, (state, params, request), reply),
    ensures
        reply is Ok ==> reflects(final(params)@, accepted.push(request)),
        reply is Err ==> final(params)@ == old(params)@ && final(state)@ == old(state)@,
        request !is Create ==> final(state)@ == old(state)@,
{
    let all = accepted.push(request);
    assert(all.drop_last() =~= accepted);
    assert(all.last() == request);
    if let ParamsRequest::SetTfNamed { tf } = request {
        if reply is Ok {
            law_transfer_function_codes(final(params)@.transfer->0, tf);
        }
    }
    if let ParamsRequest::SetPrimariesNamed { primaries } = request {
        if reply is Ok {
            law_primaries_codes(final(params)@.primaries->0, primaries);
        }
    }
}

/// A description is created exactly when a transfer function and primaries were set. It has those
/// whose numbers were set, and of every other parameter the value that was last set, or none where
/// none was. It is ready under its place in the table.
pub proof fn law_created_is_what_was_set(
    state: &mut ColorManagementState,
    params: &mut ImageDescriptionBuilder,
    accepted: Seq<ParamsRequest>,
    reply: Result<Option<ReadyDescription>, ProtocolError<ParamsError>>,
)
    requires
        old(state).wf(),
        reflects(old(params)@, accepted),
        call_ensures(
            ColorManagementState::params_request,
            (state, params, ParamsRequest::Create),
            reply,
        ),
    ensures
        ({
            let tf = last_set(accepted, |r: ParamsRequest| tf_set_by(r));
            let primaries = last_set(accepted, |r: ParamsRequest| primaries_set_by(r));
            let created = reply->Ok_0->0;
            &&& tf is None || primaries is None ==> reply == Err::<Option<ReadyDescription>, _>(
                (ProtocolError {
                    error: ParamsError::IncompleteSet,
                    message: "transfer function and primaries are both required",
                }),
            )
            &&& tf is Some && primaries is Some ==> {
                &&& reply is Ok
                &&& reply->Ok_0 is Some
                &&& created.data@.transfer.code() == tf->0
                &&& created.data@.primaries.code() == primaries->0
                &&& created.data@.max_cll == last_set(
                    accepted,
                    |r: ParamsRequest| max_cll_set_by(r),
                )
                &&& created.data@.max_fall == last_set(
                    accepted,
                    |r: ParamsRequest| max_fall_set_by(r),
                )
                &&& created.data@.mastering_luminance == last_set(
                    accepted,
                    |r: ParamsRequest| mastering_luminance_set_by(r),
                )
                &&& created.data@.luminances == last_set(
                    accepted,
                    |r: ParamsRequest| luminances_set_by(r),
                )
                &&& has_come_to_know(
                    old(state)@,
                    final(state)@,
                    created.data@,
                    created.identity,
                )
            }
            &&& final(params)@ == old(params)@
        }),
{
    if reply is Ok {
        lemma_known_place(old(state)@, reply->Ok_0->0.data@);
    }
}

/// What a builder holds is what is built of it, parameter by parameter, once the transfer function
/// and the primaries are there.
pub proof fn law_built_is_what_is_held(
    builder: &ImageDescriptionBuilder,
    desc: Option<ImageDescription>,
)
    requires
        call_ensures(ImageDescriptionBuilder::build, (builder,), desc),
    ensures
        desc is Some <==> builder@.transfer is Some && builder@.primaries is Some,
        desc is Some ==> {
            &&& builder@.transfer == Some(desc->0.transfer)
            &&& builder@.primaries == Some(desc->0.primaries)
            &&& builder@.max_cll == desc->0.max_cll
            &&& builder@.max_fall == desc->0.max_fall
            &&& builder@.mastering_luminance == desc->0.mastering_luminance
            &&& builder@.luminances == desc->0.luminances
        },
{
}

/// A transfer function is accepted exactly when none is set and the number is that of an advertised
/// one. That one is set already is told first.
pub proof fn law_transfer_function_is_set_if_advertised(
    state: &mut ColorManagementState,
    params: &mut ImageDescriptionBuilder,
    code: u32,
    reply: Result<Option<ReadyDescription>, ProtocolError<ParamsError>>,
)
    requires
        old(state).wf(),
        call_ensures(
            ColorManagementState::params_request,
            (state, params, ParamsRequest::SetTfNamed { tf: code }),
            reply,
        ),
    ensures
        ({
            let advertised = exists|tf: TransferFunction|
                #[trigger] old(state)@.supported_tfs.contains(tf) && tf.code() == code;
            &&& old(params)@.transfer is Some ==> reply == Err::<Option<ReadyDescription>, _>(
                (ProtocolError {
                    error: ParamsError::AlreadySet,
                    message: "transfer function already set",
                }),
            )
            &&& old(params)@.transfer is None && !advertised ==> reply == Err::<
                Option<ReadyDescription>,
                _,
            >(
                (ProtocolError {
                    error: ParamsError::InvalidTf,
                    message: "unsupported transfer function",
                }),
            )
            &&& old(params)@.transfer is None && advertised ==> {
                &&& reply is Ok
                &&& reply->Ok_0 is None
                &&& final(params)@.transfer is Some
                &&& final(params)@.transfer->0.code() == code
                &&& final(params)@ == (ParamsView {
                    transfer: final(params)@.transfer,
                    ..old(params)@
                })
            }
            &&& reply is Err ==> final(params)@ == old(params)@
            &&& final(state)@ == old(state)@
        }),
{
    if let Some(tf) = TransferFunction::of_code(code) {
        law_transfer_function_codes(tf, code);
    }
    assert forall|tf: TransferFunction| tf.code() == code implies TransferFunction::of_code(code)
        == Some(tf) by {
        law_transfer_function_codes(tf, code);
    }
}

/// Primaries are accepted exactly when none are set and the number is that of advertised ones. That
/// some are set already is told first.
pub proof fn law_primaries_are_set_if_advertised(
    state: &mut ColorManagementState,
    params: &mut ImageDescriptionBuilder,
    code: u32,
    reply: Result<Option<ReadyDescription>, ProtocolError<ParamsError>>,
)
    requires
        old(state).wf(),
        call_ensures(
            ColorManagementState::params_request,
            (state, params, ParamsRequest::SetPrimariesNamed { primaries: code }),
            reply,
        ),
    ensures
        ({
            let advertised = exists|primaries: Primaries|
                #[trigger] old(state)@.supported_primaries.contains(primaries) && primaries.code()
                    == code;
            &&& old(params)@.primaries is Some ==> reply == Err::<Option<ReadyDescription>, _>(
                (ProtocolError {
                    error: ParamsError::AlreadySet,
                    message: "primaries already set",
                }),
            )
            &&& old(params)@.primaries is None && !advertised ==> reply == Err::<
                Option<ReadyDescription>,
                _,
            >(
                (ProtocolError {
                    error: ParamsError::InvalidPrimariesNamed,
                    message: "unsupported primaries",
                }),
            )
            &&& old(params)@.primaries is None && advertised ==> {
                &&& reply is Ok
                &&& reply->Ok_0 is None
                &&& final(params)@.primaries is Some
                &&& final(params)@.primaries->0.code() == code
                &&& final(params)@ == (ParamsView {
                    primaries: final(params)@.primaries,
                    ..old(params)@
                })
            }
            &&& reply is Err ==> final(params)@ == old(params)@
            &&& final(state)@ == old(state)@
        }),
{
    if let Some(primaries) = Primaries::of_code(code) {
        law_primaries_codes(primaries, code);
    }
    assert forall|primaries: Primaries| primaries.code() == code implies Primaries::of_code(code)
        == Some(primaries) by {
        law_primaries_codes(primaries, code);
    }
}

/// Light levels and the mastering luminance can always be set, content luminances and mastering
/// display primaries exactly when the feature is advertised; transfer functions by exponent and
/// primaries by chromaticities never. None of these creates a description.
pub proof fn law_other_parameters_go_by_the_features(
    state: &mut ColorManagementState,
    params: &mut ImageDescriptionBuilder,
    request: ParamsRequest,
    reply: Result<Option<ReadyDescription>, ProtocolError<ParamsError>>,
)
    requires
        old(state).wf(),
        call_ensures(ColorManagementState::params_request, (state, params, request), reply),
    ensures
        request !is Create ==> final(state)@ == old(state)@,
        request !is Create && reply is Ok ==> reply->Ok_0 is None,
        request is SetMaxCll || request is SetMaxFall || request is SetMasteringLuminance
            || request is Other ==> reply is Ok,
        request is SetLuminances ==> if old(state)@.supported_features.contains(
            Feature::SetLuminances,
        ) {
            reply is Ok
        } else {
            reply == Err::<Option<ReadyDescription>, _>(
                (ProtocolError {
                    error: ParamsError::UnsupportedFeature,
                    message: "set_luminances is not supported",
                }),
            )
        },
        request is SetMasteringDisplayPrimaries ==> if old(state)@.supported_features.contains(
            Feature::SetMasteringDisplayPrimaries,
        ) {
            reply is Ok
        } else {
            reply == Err::<Option<ReadyDescription>, _>(
                (ProtocolError {
                    error: ParamsError::UnsupportedFeature,
                    message: "set_mastering_display_primaries is not supported",
                }),
            )
        },
        request is SetTfPower ==> reply == Err::<Option<ReadyDescription>, _>(
            (ProtocolError {
                error: ParamsError::UnsupportedFeature,
                message: "set_tf_power is not supported",
            }),
        ),
        request is SetPrimaries ==> reply == Err::<Option<ReadyDescription>, _>(
            (ProtocolError {
                error: ParamsError::UnsupportedFeature,
                message: "set_primaries is not supported",
            }),
        ),
        request is SetMasteringDisplayPrimaries || request is Other || request is SetTfPower
            || request is SetPrimaries ==> final(params)@ == old(params)@,
{
}

// ---- advertising and information ----

/// What the compositor chooses is advertised as chosen, and the perceptual intent and the
/// parametric feature are added at the end exactly where they are missing. At first no description
/// is known and no object is tracked.
pub proof fn law_new_state_offers_what_was_chosen(
    supported_tfs: Vec<TransferFunction>,
    supported_primaries: Vec<Primaries>,
    supported_features: Vec<Feature>,
    supported_intents: Vec<RenderIntent>,
    state: ColorManagementState,
)
    requires
        call_ensures(
            ColorManagementState::new,
            (supported_tfs, supported_primaries, supported_features, supported_intents),
            state,
        ),
    ensures
        state.wf(),
        state@.supported_tfs == supported_tfs@,
        state@.supported_primaries == supported_primaries@,
        supported_features@.contains(Feature::Parametric) ==> state@.supported_features
            == supported_features@,
        !supported_features@.contains(Feature::Parametric) ==> state@.supported_features
            == supported_features@.push(Feature::Parametric),
        supported_intents@.contains(RenderIntent::Perceptual) ==> state@.supported_intents
            == supported_intents@,
        !supported_intents@.contains(RenderIntent::Perceptual) ==> state@.supported_intents
            == supported_intents@.push(RenderIntent::Perceptual),
        state@.identities.len() == 0,
        state@.output_objects.len() == 0,
{
}

/// A client that binds the global gets one event for everything that is supported, intents before
/// features before transfer functions before primaries, each in the order in which they are listed,
/// and `done` at the end.
pub proof fn law_binding_tells_everything_in_order(
    state: &ColorManagementState,
    events: Vec<ManagerEvent>,
    i: int,
)
    requires
        call_ensures(ColorManagementState::bind, (state,), events),
    ensures
        ({
            let features_at = state@.supported_intents.len();
            let tfs_at = features_at + state@.supported_features.len();
            let primaries_at = tfs_at + state@.supported_tfs.len();
            let done_at = primaries_at + state@.supported_primaries.len();
            &&& events@.len() == done_at + 1
            &&& events@[done_at as int] == ManagerEvent::Done
            &&& 0 <= i < features_at ==> events@[i] == (ManagerEvent::SupportedIntent {
                intent: state@.supported_intents[i],
            })
            &&& features_at <= i < tfs_at ==> events@[i] == (ManagerEvent::SupportedFeature {
                feature: state@.supported_features[i - features_at],
            })
            &&& tfs_at <= i < primaries_at ==> events@[i] == (ManagerEvent::SupportedTfNamed {
                tf: state@.supported_tfs[i - tfs_at],
            })
            &&& primaries_at <= i < done_at ==> events@[i] == (
            ManagerEvent::SupportedPrimariesNamed {
                primaries: state@.supported_primaries[i - primaries_at],
            })
        }),
{
}

/// The information about a description comes in a fixed order: primaries, transfer function,
/// mastering luminance, content and frame-average light level, as far as it has them, and `done`.
/// An object that is dead gets none.
pub proof fn law_information_comes_in_order(
    alive: bool,
    desc: &ImageDescription,
    min_lum: u32,
    max_lum: u32,
    events: Vec<InfoEvent>,
)
    requires
        call_ensures(send_image_description_info, (alive, desc), events),
    ensures
        !alive ==> events@.len() == 0,
        alive ==> {
            let cll_at: int = if desc.mastering_luminance is Some {
                3
            } else {
                2
            };
            let fall_at = if desc.max_cll is Some {
                cll_at + 1
            } else {
                cll_at
            };
            let done_at = if desc.max_fall is Some {
                fall_at + 1
            } else {
                fall_at
            };
            &&& events@.len() == done_at + 1
            &&& events@[0] == (InfoEvent::PrimariesNamed { primaries: desc.primaries })
            &&& events@[1] == (InfoEvent::TfNamed { tf: desc.transfer })
            &&& desc.mastering_luminance == Some((min_lum, max_lum)) ==> events@[2] == (
            InfoEvent::TargetLuminance { min_lum, max_lum })
            &&& desc.max_cll is Some ==> events@[cll_at] == (InfoEvent::TargetMaxCll {
                max_cll: desc.max_cll->0,
            })
            &&& desc.max_fall is Some ==> events@[fall_at] == (InfoEvent::TargetMaxFall {
                max_fall: desc.max_fall->0,
            })
            &&& events@[done_at] == InfoEvent::Done
        },
{
}

/// Two descriptions are the same exactly when they agree in every field.
pub proof fn law_descriptions_differ_in_any_field(
    a: &ImageDescription,
    b: &ImageDescription,
    same: bool,
)
    requires
        call_ensures(ImageDescription::eq, (a, b), same),
    ensures
        same <==> {
            &&& a.transfer == b.transfer
            &&& a.primaries == b.primaries
            &&& a.max_cll == b.max_cll
            &&& a.max_fall == b.max_fall
            &&& a.mastering_luminance == b.mastering_luminance
            &&& a.luminances == b.luminances
        },
{
}

/// A description is HDR by its transfer function or by its primaries alone.
pub proof fn law_hdr_is_pq_or_hlg_or_bt2020(desc: &ImageDescription, hdr: bool)
    requires
        call_ensures(ImageDescription::is_hdr, (desc,), hdr),
    ensures
        hdr <==> {
            ||| desc.transfer == TransferFunction::St2084Pq
            ||| desc.transfer == TransferFunction::Hlg
            ||| desc.primaries == Primaries::Bt2020
        },
{
}

/// A client sees the global exactly as the filter that the global was created with says.
pub proof fn law_filter_decides<F: Fn(&C) -> bool, C>(
    filter: F,
    data: ColorManagementGlobalData<F>,
    client: C,
    visible: bool,
)
    requires
        call_ensures(ColorManagementGlobalData::<F>::new, (filter,), data),
        call_ensures(ColorManagementGlobalData::<F>::can_view, (&data, client), visible),
    ensures
        call_ensures(filter, (&client,), visible),
{
}

// ---- numbers on the wire ----

/// A number is taken for the transfer function that has it, and for none beyond the known ones.
pub proof fn law_transfer_function_is_decoded(
    code: u32,
    decoded: Option<TransferFunction>,
    tf: TransferFunction,
)
    requires
        call_ensures(TransferFunction::decode, (code,), decoded),
    ensures
        decoded == Some(tf) <==> tf.code() == code,
        decoded is Some <==> 1 <= code <= 14,
{
    law_transfer_function_codes(tf, code);
}

/// A number is taken for the primaries that have it, and for none beyond the known ones.
pub proof fn law_primaries_are_decoded(
    code: u32,
    decoded: Option<Primaries>,
    primaries: Primaries,
)
    requires
        call_ensures(Primaries::decode, (code,), decoded),
    ensures
        decoded == Some(primaries) <==> primaries.code() == code,
        decoded is Some <==> 1 <= code <= 10,
{
    law_primaries_codes(primaries, code);
}

/// A number is taken for the rendering intent that has it, and for none beyond the known ones.
pub proof fn law_render_intent_is_decoded(
    code: u32,
    decoded: Option<RenderIntent>,
    intent: RenderIntent,
)
    requires
        call_ensures(RenderIntent::decode, (code,), decoded),
    ensures
        decoded == Some(intent) <==> intent.code() == code,
        decoded is Some <==> code <= 5,
{
    law_render_intent_codes(intent, code);
}

// ---- what calls need ----

/// Every description can be identified until the table is full, and a known one even then.
pub proof fn law_identities_run_out_at_the_last_number(
    state: &ColorManagementState,
    desc: ImageDescription,
    can: bool,
)
    requires
        call_ensures(ColorManagementState::can_identify, (state, desc), can),
    ensures
        can <==> state@.identities.contains(desc) || state@.identities.len() < u32::MAX,
{
}

/// Where the table lists nothing twice and has a number left for the description, or knows it, and
/// where the perceptual intent and the parametric feature are offered, every call that may ready the
/// description is allowed.
pub proof fn law_calls_need_a_free_number_only(
    state: &mut ColorManagementState,
    surface: &mut SurfaceStates,
    params: &mut ImageDescriptionBuilder,
    desc: ImageDescription,
    live: &Vec<u64>,
    output: u64,
    live_outputs: &Vec<LiveOutputObject>,
    request: ParamsRequest,
)
    requires
        old(state)@.identities.no_duplicates(),
        old(state)@.identities.len() <= u32::MAX,
        old(state)@.supported_features.contains(Feature::Parametric),
        old(state)@.supported_intents.contains(RenderIntent::Perceptual),
        old(state)@.identities.contains(desc) || old(state)@.identities.len() < u32::MAX,
    ensures
        call_requires(ColorManagementState::identity_for, (state, desc)),
        call_requires(ColorManagementState::make_ready_description, (state, desc)),
        call_requires(ColorManagementState::preferred_changed, (state, surface, desc, live)),
        call_requires(
            ColorManagementState::output_description_changed,
            (state, output, live_outputs),
        ),
        call_requires(
            ColorManagementState::output_request,
            (state, OutputRequest::GetImageDescription { described: Some(desc) }),
        ),
        call_requires(
            ColorManagementState::feedback_request,
            (state, FeedbackRequest::GetPreferred { preferred: Some(desc) }),
        ),
        call_requires(
            ColorManagementState::feedback_request,
            (state, FeedbackRequest::GetPreferredParametric { preferred: Some(desc) }),
        ),
        request !is Create || old(state)@.identities.len() < u32::MAX ==> call_requires(
            ColorManagementState::params_request,
            (state, params, request),
        ),
{
}

} // verus!
