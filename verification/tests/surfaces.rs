use color_management::{
    feedback_destroyed, get_surface_description, set_pending_description, surface_destroyed,
    ColorManagementState, ColorManagementSurfaceCachedState, ImageDescription, ManagerError,
    ManagerReply, ManagerRequest, PreferredChanged, Primaries, ProtocolError, RenderIntent,
    SurfaceError, SurfaceRequest, SurfaceStates, TransferFunction,
};

fn pq() -> ImageDescription {
    ImageDescription {
        transfer: TransferFunction::St2084Pq,
        primaries: Primaries::Bt2020,
        ..ImageDescription::srgb()
    }
}

fn state() -> ColorManagementState {
    ColorManagementState::new(Vec::new(), Vec::new(), Vec::new(), vec![RenderIntent::Relative])
}

fn set(desc: ImageDescription, render_intent: u32) -> SurfaceRequest {
    SurfaceRequest::SetImageDescription { image_description: Some(desc), render_intent }
}

/// A commit that takes effect at once.
fn commit(surface: &mut SurfaceStates) {
    let cached = surface.commit();
    surface.apply(cached);
}

#[test]
fn an_attached_description_is_visible_after_commit() {
    let state = state();
    let mut surface = SurfaceStates::default();
    assert_eq!(get_surface_description(&surface), (None, RenderIntent::Perceptual));
    assert_eq!(state.surface_request(Some(&mut surface), set(pq(), 1)), Ok(true));
    assert_eq!(get_surface_description(&surface), (None, RenderIntent::Perceptual));
    commit(&mut surface);
    assert_eq!(get_surface_description(&surface), (Some(pq()), RenderIntent::Relative));
    // Pending state outlives the commit.
    commit(&mut surface);
    assert_eq!(get_surface_description(&surface), (Some(pq()), RenderIntent::Relative));
    assert_eq!(
        state.surface_request(Some(&mut surface), SurfaceRequest::UnsetImageDescription),
        Ok(true)
    );
    assert_eq!(get_surface_description(&surface), (Some(pq()), RenderIntent::Relative));
    commit(&mut surface);
    assert_eq!(get_surface_description(&surface), (None, RenderIntent::Perceptual));
}

#[test]
fn a_commit_brings_what_was_pending_when_it_was_made() {
    let state = state();
    let srgb = ImageDescription::srgb();
    let mut surface = SurfaceStates::default();
    state.surface_request(Some(&mut surface), set(pq(), 1)).unwrap();
    let first = surface.commit();
    assert_eq!(first.description, Some(pq()));
    assert_eq!(first.render_intent, RenderIntent::Relative);
    assert_eq!(get_surface_description(&surface), (None, RenderIntent::Perceptual));
    state.surface_request(Some(&mut surface), set(srgb, 0)).unwrap();
    surface.apply(first);
    assert_eq!(get_surface_description(&surface), (Some(pq()), RenderIntent::Relative));
    // What was set after the commit is still pending.
    assert_eq!(state.surface_request(Some(&mut surface), set(srgb, 0)), Ok(false));
    let second = surface.commit();
    assert!(surface_destroyed(Some(&mut surface)));
    surface.apply(second);
    assert_eq!(get_surface_description(&surface), (Some(srgb), RenderIntent::Perceptual));
    surface.apply(first);
    surface.apply(second);
    assert_eq!(get_surface_description(&surface), (Some(srgb), RenderIntent::Perceptual));
}

#[test]
fn reattaching_the_same_description_is_no_change() {
    let state = state();
    let mut surface = SurfaceStates::default();
    assert_eq!(state.surface_request(Some(&mut surface), set(pq(), 0)), Ok(true));
    assert_eq!(state.surface_request(Some(&mut surface), set(pq(), 0)), Ok(false));
    commit(&mut surface);
    assert_eq!(state.surface_request(Some(&mut surface), set(pq(), 0)), Ok(false));
    // Another intent is a change.
    assert_eq!(state.surface_request(Some(&mut surface), set(pq(), 1)), Ok(true));
    let mut surface = SurfaceStates::default();
    assert_eq!(
        state.surface_request(Some(&mut surface), SurfaceRequest::UnsetImageDescription),
        Ok(false)
    );
    assert!(set_pending_description(&mut surface, Some(pq()), RenderIntent::Absolute));
    assert!(!set_pending_description(&mut surface, Some(pq()), RenderIntent::Absolute));
}

#[test]
fn surface_requests_are_refused_in_order() {
    let state = state();
    let inert = ProtocolError {
        error: SurfaceError::Inert,
        message: "the underlying wl_surface was destroyed",
    };
    let bad_intent = ProtocolError {
        error: SurfaceError::RenderIntent,
        message: "unsupported rendering intent",
    };
    let not_ready = ProtocolError {
        error: SurfaceError::ImageDescription,
        message: "image description is not ready",
    };
    let no_description = |render_intent: u32| SurfaceRequest::SetImageDescription {
        image_description: None,
        render_intent,
    };
    let mut surface = SurfaceStates::default();
    assert_eq!(state.surface_request(None, no_description(99)).unwrap_err(), inert);
    assert_eq!(
        state.surface_request(None, SurfaceRequest::UnsetImageDescription).unwrap_err(),
        inert
    );
    assert_eq!(
        state.surface_request(Some(&mut surface), no_description(99)).unwrap_err(),
        bad_intent
    );
    // Known to the protocol, but not advertised.
    assert_eq!(state.surface_request(Some(&mut surface), set(pq(), 2)).unwrap_err(), bad_intent);
    assert_eq!(
        state.surface_request(Some(&mut surface), no_description(1)).unwrap_err(),
        not_ready
    );
    commit(&mut surface);
    assert_eq!(get_surface_description(&surface), (None, RenderIntent::Perceptual));
    assert_eq!(state.surface_request(None, SurfaceRequest::Destroy), Ok(false));
    assert_eq!(state.surface_request(Some(&mut surface), SurfaceRequest::Other), Ok(false));
}

#[test]
fn only_one_object_is_attached_to_a_surface() {
    let mut state = state();
    let mut surface = SurfaceStates::default();
    let exists = ProtocolError {
        error: ManagerError::SurfaceExists,
        message: "surface already has a wp_color_management_surface_v1",
    };
    assert!(matches!(
        state.manager_request(ManagerRequest::GetSurface { surface: &mut surface }),
        Ok(ManagerReply::InitSurface)
    ));
    for _ in 0..2 {
        assert_eq!(
            state
                .manager_request(ManagerRequest::GetSurface { surface: &mut surface })
                .unwrap_err(),
            exists
        );
    }
    // Another surface is another matter.
    let mut other = SurfaceStates::default();
    assert!(state.manager_request(ManagerRequest::GetSurface { surface: &mut other }).is_ok());
    assert!(!surface_destroyed(Some(&mut surface)));
    assert!(state.manager_request(ManagerRequest::GetSurface { surface: &mut surface }).is_ok());
}

#[test]
fn destroying_the_object_unsets_the_description() {
    let state = state();
    let mut surface = SurfaceStates::default();
    state.surface_request(Some(&mut surface), set(pq(), 1)).unwrap();
    commit(&mut surface);
    assert!(surface_destroyed(Some(&mut surface)));
    assert_eq!(get_surface_description(&surface), (Some(pq()), RenderIntent::Relative));
    assert!(!surface_destroyed(Some(&mut surface)));
    commit(&mut surface);
    assert_eq!(get_surface_description(&surface), (None, RenderIntent::Perceptual));
    assert!(!surface_destroyed(None));
}

#[test]
fn cached_state_replaces_the_earlier_one() {
    let mut pending = ColorManagementSurfaceCachedState {
        description: Some(pq()),
        render_intent: RenderIntent::Relative,
    };
    let mut current = ColorManagementSurfaceCachedState::default();
    assert_eq!(current.description, None);
    assert_eq!(current.render_intent, RenderIntent::Perceptual);
    assert!(pending != current);
    let cached = pending.commit();
    assert!(cached == pending);
    cached.merge_into(&mut current);
    assert!(current == pending);
    assert_eq!(current.description, Some(pq()));
}

#[test]
fn feedback_objects_are_told_once_per_preference() {
    let mut state = state();
    let mut surface = SurfaceStates::default();
    for id in [7u64, 8, 9] {
        assert!(matches!(
            state.manager_request(ManagerRequest::GetSurfaceFeedback {
                id,
                surface: &mut surface
            }),
            Ok(ManagerReply::InitSurfaceFeedback)
        ));
    }
    let srgb = ImageDescription::srgb();
    let told = |feedback: u64, identity: u32| PreferredChanged { feedback, identity };
    // The object with key 8 is dead.
    assert_eq!(
        state.preferred_changed(&mut surface, pq(), &vec![9, 7, 1]),
        vec![told(7, 1), told(9, 1)]
    );
    assert_eq!(state.preferred_changed(&mut surface, pq(), &vec![7, 8, 9]), Vec::new());
    // It was forgotten.
    assert_eq!(
        state.preferred_changed(&mut surface, srgb, &vec![7, 8, 9]),
        vec![told(7, 2), told(9, 2)]
    );
    feedback_destroyed(Some(&mut surface), 7);
    feedback_destroyed(None, 9);
    assert_eq!(state.preferred_changed(&mut surface, pq(), &vec![7, 8, 9]), vec![told(9, 1)]);
    assert_eq!(state.preferred_changed(&mut surface, pq(), &vec![9]), Vec::new());
}

#[test]
fn a_feedback_object_is_told_once_and_outlives_other_events() {
    let mut state = state();
    let mut surface = SurfaceStates::default();
    let told = |feedback: u64, identity: u32| PreferredChanged { feedback, identity };
    for id in [3u64, 4] {
        state
            .manager_request(ManagerRequest::GetSurfaceFeedback { id, surface: &mut surface })
            .unwrap();
    }
    assert_eq!(
        state.preferred_changed(&mut surface, pq(), &vec![4, 3, 4, 3]),
        vec![told(3, 1), told(4, 1)]
    );
    state.manager_request(ManagerRequest::GetSurface { surface: &mut surface }).unwrap();
    state.surface_request(Some(&mut surface), set(pq(), 0)).unwrap();
    commit(&mut surface);
    surface_destroyed(Some(&mut surface));
    assert_eq!(
        state.preferred_changed(&mut surface, ImageDescription::srgb(), &vec![3, 4]),
        vec![told(3, 2), told(4, 2)]
    );
}

#[test]
fn a_surface_without_objects_is_not_notified_but_the_description_becomes_known() {
    let mut state = state();
    let mut surface = SurfaceStates::default();
    assert_eq!(state.preferred_changed(&mut surface, pq(), &vec![1]), Vec::new());
    assert_eq!(state.identity_for(ImageDescription::srgb()), 2);
    assert_eq!(state.identity_for(pq()), 1);
    // A notice that reached nobody is no notice.
    state
        .manager_request(ManagerRequest::GetSurfaceFeedback { id: 1, surface: &mut surface })
        .unwrap();
    assert_eq!(
        state.preferred_changed(&mut surface, pq(), &vec![1]),
        vec![PreferredChanged { feedback: 1, identity: 1 }]
    );
}

#[test]
fn the_last_notice_outlives_other_events() {
    let mut state = state();
    let mut surface = SurfaceStates::default();
    state
        .manager_request(ManagerRequest::GetSurfaceFeedback { id: 1, surface: &mut surface })
        .unwrap();
    assert_eq!(state.preferred_changed(&mut surface, pq(), &vec![1]).len(), 1);
    state.manager_request(ManagerRequest::GetSurface { surface: &mut surface }).unwrap();
    state.surface_request(Some(&mut surface), set(pq(), 0)).unwrap();
    commit(&mut surface);
    surface_destroyed(Some(&mut surface));
    state
        .manager_request(ManagerRequest::GetSurfaceFeedback { id: 2, surface: &mut surface })
        .unwrap();
    feedback_destroyed(Some(&mut surface), 1);
    assert_eq!(state.preferred_changed(&mut surface, pq(), &vec![2]), Vec::new());
}
