use color_management::{
    ColorManagementGlobalData, ColorManagementHandler, ColorManagementState, Feature,
    ImageDescription, LiveOutputObject, ManagerEvent, ManagerReply, ManagerRequest, Primaries,
    RenderIntent, TransferFunction,
};

#[test]
fn binding_advertises_what_is_supported() {
    let state = ColorManagementState::new(
        vec![TransferFunction::Srgb, TransferFunction::Hlg],
        vec![Primaries::Bt2020],
        vec![Feature::SetLuminances],
        vec![RenderIntent::Relative],
    );
    assert_eq!(
        state.bind(),
        vec![
            ManagerEvent::SupportedIntent { intent: RenderIntent::Relative },
            ManagerEvent::SupportedIntent { intent: RenderIntent::Perceptual },
            ManagerEvent::SupportedFeature { feature: Feature::SetLuminances },
            ManagerEvent::SupportedFeature { feature: Feature::Parametric },
            ManagerEvent::SupportedTfNamed { tf: TransferFunction::Srgb },
            ManagerEvent::SupportedTfNamed { tf: TransferFunction::Hlg },
            ManagerEvent::SupportedPrimariesNamed { primaries: Primaries::Bt2020 },
            ManagerEvent::Done,
        ]
    );
}

#[test]
fn what_is_always_advertised_is_not_advertised_twice() {
    let state = ColorManagementState::new(
        Vec::new(),
        Vec::new(),
        vec![Feature::Parametric, Feature::SetPrimaries],
        vec![RenderIntent::Perceptual, RenderIntent::Absolute],
    );
    assert_eq!(
        state.bind(),
        vec![
            ManagerEvent::SupportedIntent { intent: RenderIntent::Perceptual },
            ManagerEvent::SupportedIntent { intent: RenderIntent::Absolute },
            ManagerEvent::SupportedFeature { feature: Feature::Parametric },
            ManagerEvent::SupportedFeature { feature: Feature::SetPrimaries },
            ManagerEvent::Done,
        ]
    );
}

#[test]
fn nothing_but_the_minimum_is_advertised_unasked() {
    let state = ColorManagementState::new(Vec::new(), Vec::new(), Vec::new(), Vec::new());
    assert_eq!(
        state.bind(),
        vec![
            ManagerEvent::SupportedIntent { intent: RenderIntent::Perceptual },
            ManagerEvent::SupportedFeature { feature: Feature::Parametric },
            ManagerEvent::Done,
        ]
    );
}

#[test]
fn output_changes_are_told_to_live_objects_of_the_output() {
    let mut state = ColorManagementState::new(Vec::new(), Vec::new(), Vec::new(), Vec::new());
    for id in [1u64, 2, 3, 4] {
        assert!(matches!(
            state.manager_request(ManagerRequest::GetOutput { id }),
            Ok(ManagerReply::InitOutput)
        ));
    }
    let live = |object: u64, output: Option<u64>| LiveOutputObject { object, output };
    // 2 is dead, 3 has lost its output, 5 was never created.
    let objects =
        vec![live(5, Some(10)), live(4, Some(10)), live(3, None), live(1, Some(10))];
    assert_eq!(state.output_description_changed(10, &objects), vec![1, 4]);
    assert_eq!(state.output_description_changed(11, &objects), Vec::<u64>::new());
    // 2 was forgotten; 3 was not.
    let objects = vec![live(1, Some(11)), live(2, Some(11)), live(3, Some(11))];
    assert_eq!(state.output_description_changed(11, &objects), vec![1, 3]);
    assert_eq!(state.output_description_changed(11, &Vec::new()), Vec::<u64>::new());
    assert_eq!(state.output_description_changed(11, &objects), Vec::<u64>::new());
}

#[test]
fn an_output_object_is_told_once_of_a_change() {
    let mut state = ColorManagementState::new(Vec::new(), Vec::new(), Vec::new(), Vec::new());
    state.manager_request(ManagerRequest::GetOutput { id: 1 }).unwrap();
    state.manager_request(ManagerRequest::GetOutput { id: 2 }).unwrap();
    let live = |object: u64| LiveOutputObject { object, output: Some(10) };
    let objects = vec![live(1), live(2), live(1), live(2)];
    assert_eq!(state.output_description_changed(10, &objects), vec![1, 2]);
    assert_eq!(state.output_description_changed(10, &objects), vec![1, 2]);
}

#[test]
fn the_filter_decides_who_sees_the_global() {
    let data = ColorManagementGlobalData::new(|client: &u32| *client == 4);
    assert!(data.can_view(4u32));
    assert!(!data.can_view(5u32));
}

struct Compositor {
    state: ColorManagementState,
    scheduled: Vec<(u32, ImageDescription)>,
}

impl ColorManagementHandler for Compositor {
    type Surface = u32;
    type Output = u32;
    type Info = u32;

    fn color_management_state(&mut self) -> &mut ColorManagementState {
        &mut self.state
    }

    fn schedule_image_description_info(&mut self, info: u32, desc: ImageDescription) {
        self.scheduled.push((info, desc));
    }
}

#[test]
fn handlers_default_to_srgb() {
    let mut compositor = Compositor {
        state: ColorManagementState::new(Vec::new(), Vec::new(), Vec::new(), Vec::new()),
        scheduled: Vec::new(),
    };
    let hlg = ImageDescription {
        transfer: TransferFunction::Hlg,
        ..ImageDescription::srgb()
    };
    assert_eq!(compositor.color_management_state().identity_for(hlg), 1);
    assert_eq!(compositor.description_for_output(&1), ImageDescription::srgb());
    assert_eq!(compositor.preferred_description_for_surface(&1), ImageDescription::srgb());
    compositor.image_description_changed(&1);
    // None of these changed the handler.
    assert_eq!(compositor.scheduled, Vec::new());
    compositor.schedule_image_description_info(5, ImageDescription::srgb());
    assert_eq!(compositor.scheduled, vec![(5, ImageDescription::srgb())]);
    assert_eq!(compositor.color_management_state().identity_for(ImageDescription::srgb()), 2);
    assert_eq!(compositor.color_management_state().identity_for(hlg), 1);
}
