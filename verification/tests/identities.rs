use color_management::{
    ColorManagementState, FeedbackError, FeedbackRequest, ImageDescription, ManagerRequest,
    OutputRequest, PreferredChanged, Primaries, ProtocolError, SurfaceStates, TransferFunction,
};

fn empty_state() -> ColorManagementState {
    ColorManagementState::new(Vec::new(), Vec::new(), Vec::new(), Vec::new())
}

#[test]
fn identities_are_stable_per_description() {
    let mut state = empty_state();

    let srgb = ImageDescription::srgb();
    let pq = ImageDescription {
        transfer: TransferFunction::St2084Pq,
        primaries: Primaries::Bt2020,
        max_cll: Some(800),
        max_fall: Some(400),
        mastering_luminance: None,
        luminances: None,
    };

    let a = state.identity_for(srgb);
    let b = state.identity_for(pq);
    assert_ne!(a, b);
    assert_ne!(a, 0, "identity 0 is reserved by the protocol");
    assert_ne!(b, 0);
    // The same description always maps to the same identity.
    assert_eq!(state.identity_for(srgb), a);
    assert_eq!(state.identity_for(pq), b);
    // A description differing only in metadata gets its own identity.
    let pq_brighter = ImageDescription {
        max_cll: Some(1000),
        ..pq
    };
    let c = state.identity_for(pq_brighter);
    assert_ne!(c, b);
    assert_eq!(state.identity_for(pq), b);
}

#[test]
fn notified_identity_is_the_one_that_get_preferred_delivers() {
    let mut state = empty_state();
    let mut surface = SurfaceStates::default();
    state
        .manager_request(ManagerRequest::GetSurfaceFeedback { id: 3, surface: &mut surface })
        .unwrap();
    let srgb = ImageDescription::srgb();
    let p3 = ImageDescription { primaries: Primaries::DisplayP3, ..srgb };
    state.identity_for(srgb);
    let events = state.preferred_changed(&mut surface, p3, &vec![3]);
    assert_eq!(events, vec![PreferredChanged { feedback: 3, identity: 2 }]);
    state.identity_for(ImageDescription { primaries: Primaries::AdobeRgb, ..srgb });
    for request in [
        FeedbackRequest::GetPreferred { preferred: Some(p3) },
        FeedbackRequest::GetPreferredParametric { preferred: Some(p3) },
    ] {
        let ready = state.feedback_request(request).unwrap().unwrap();
        assert_eq!(ready.identity, 2);
        assert_eq!(ready.data.description(), p3);
    }
}

#[test]
fn preferred_description_of_a_destroyed_surface_is_refused() {
    let mut state = empty_state();
    for request in [
        FeedbackRequest::GetPreferred { preferred: None },
        FeedbackRequest::GetPreferredParametric { preferred: None },
    ] {
        assert_eq!(
            state.feedback_request(request).unwrap_err(),
            ProtocolError {
                error: FeedbackError::Inert,
                message: "the underlying wl_surface was destroyed",
            }
        );
    }
    assert!(matches!(state.feedback_request(FeedbackRequest::Destroy), Ok(None)));
    assert!(matches!(state.feedback_request(FeedbackRequest::Other), Ok(None)));
}

#[test]
fn an_output_that_is_gone_is_described_as_srgb() {
    let mut state = empty_state();
    let hlg = ImageDescription { transfer: TransferFunction::Hlg, ..ImageDescription::srgb() };
    let ready = state
        .output_request(OutputRequest::GetImageDescription { described: Some(hlg) })
        .unwrap();
    assert_eq!(ready.data.description(), hlg);
    assert_eq!(ready.identity, 1);
    let ready =
        state.output_request(OutputRequest::GetImageDescription { described: None }).unwrap();
    assert_eq!(ready.data.description(), ImageDescription::srgb());
    assert_eq!(ready.identity, 2);
    assert!(state.output_request(OutputRequest::Destroy).is_none());
    assert!(state.output_request(OutputRequest::Other).is_none());
}

#[test]
fn there_is_an_identity_for_every_description() {
    let mut state = empty_state();
    assert!(state.can_identify(ImageDescription::srgb()));
    let ready = state.make_ready_description(ImageDescription::srgb());
    assert_eq!(ready.identity, 1);
    assert!(state.can_identify(ImageDescription::srgb()));
}
