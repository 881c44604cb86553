use color_management::{
    image_description_request, send_image_description_info, Feature, ImageDescription,
    ImageDescriptionBuilder, ImageDescriptionData, ImageDescriptionRequest, InfoEvent,
    ManagerError, ManagerReply, ManagerRequest, ParamsError, ParamsRequest, Primaries,
    ProtocolError, ColorManagementState, TransferFunction,
};

fn pq() -> ImageDescription {
    ImageDescription {
        transfer: TransferFunction::St2084Pq,
        primaries: Primaries::Bt2020,
        max_cll: Some(800),
        max_fall: Some(400),
        mastering_luminance: Some((50, 1000)),
        luminances: Some((0, 10000, 203)),
    }
}

fn state(features: Vec<Feature>) -> ColorManagementState {
    ColorManagementState::new(
        vec![TransferFunction::St2084Pq, TransferFunction::Srgb],
        vec![Primaries::Bt2020, Primaries::Srgb],
        features,
        Vec::new(),
    )
}

fn refused(error: ParamsError, message: &'static str) -> ProtocolError<ParamsError> {
    ProtocolError { error, message }
}

#[test]
fn srgb_is_the_default_sdr_description() {
    let srgb = ImageDescription::srgb();
    assert_eq!(srgb.transfer, TransferFunction::Srgb);
    assert_eq!(srgb.primaries, Primaries::Srgb);
    assert_eq!(srgb.max_cll, None);
    assert_eq!(srgb.max_fall, None);
    assert_eq!(srgb.mastering_luminance, None);
    assert_eq!(srgb.luminances, None);
    assert!(!srgb.is_hdr());
}

#[test]
fn hdr_is_pq_or_hlg_or_bt2020() {
    let srgb = ImageDescription::srgb();
    assert!(ImageDescription { transfer: TransferFunction::St2084Pq, ..srgb }.is_hdr());
    assert!(ImageDescription { transfer: TransferFunction::Hlg, ..srgb }.is_hdr());
    assert!(ImageDescription { primaries: Primaries::Bt2020, ..srgb }.is_hdr());
    assert!(!ImageDescription { primaries: Primaries::DisplayP3, ..srgb }.is_hdr());
    assert!(!ImageDescription { transfer: TransferFunction::Gamma22, ..srgb }.is_hdr());
    assert!(pq().is_hdr());
}

#[test]
fn descriptions_differ_in_any_field() {
    let base = pq();
    assert_eq!(base, pq());
    assert_ne!(base, ImageDescription { transfer: TransferFunction::Hlg, ..base });
    assert_ne!(base, ImageDescription { primaries: Primaries::Srgb, ..base });
    assert_ne!(base, ImageDescription { max_cll: None, ..base });
    assert_ne!(base, ImageDescription { max_fall: Some(401), ..base });
    assert_ne!(base, ImageDescription { mastering_luminance: Some((50, 1001)), ..base });
    assert_ne!(base, ImageDescription { mastering_luminance: None, ..base });
    assert_ne!(base, ImageDescription { luminances: Some((0, 10000, 204)), ..base });
    assert_ne!(base, ImageDescription { luminances: None, ..base });
}

#[test]
fn information_lists_what_the_description_has() {
    assert_eq!(
        send_image_description_info(true, &pq()),
        vec![
            InfoEvent::PrimariesNamed { primaries: Primaries::Bt2020 },
            InfoEvent::TfNamed { tf: TransferFunction::St2084Pq },
            InfoEvent::TargetLuminance { min_lum: 50, max_lum: 1000 },
            InfoEvent::TargetMaxCll { max_cll: 800 },
            InfoEvent::TargetMaxFall { max_fall: 400 },
            InfoEvent::Done,
        ]
    );
    assert_eq!(
        send_image_description_info(true, &ImageDescription::srgb()),
        vec![
            InfoEvent::PrimariesNamed { primaries: Primaries::Srgb },
            InfoEvent::TfNamed { tf: TransferFunction::Srgb },
            InfoEvent::Done,
        ]
    );
    let only_fall = ImageDescription { max_fall: Some(7), ..ImageDescription::srgb() };
    assert_eq!(
        send_image_description_info(true, &only_fall),
        vec![
            InfoEvent::PrimariesNamed { primaries: Primaries::Srgb },
            InfoEvent::TfNamed { tf: TransferFunction::Srgb },
            InfoEvent::TargetMaxFall { max_fall: 7 },
            InfoEvent::Done,
        ]
    );
}

#[test]
fn information_for_a_dead_object_is_not_sent() {
    assert_eq!(send_image_description_info(false, &pq()), Vec::new());
}

#[test]
fn content_luminances_are_not_reported() {
    let other = ImageDescription { luminances: None, ..pq() };
    assert_eq!(send_image_description_info(true, &pq()), send_image_description_info(true, &other));
}

#[test]
fn information_is_scheduled_for_the_description_of_the_object() {
    let data = ImageDescriptionData::new(pq());
    assert_eq!(data.description(), pq());
    assert_eq!(
        image_description_request(&data, ImageDescriptionRequest::GetInformation),
        Some(pq())
    );
    assert_eq!(image_description_request(&data, ImageDescriptionRequest::Destroy), None);
    assert_eq!(image_description_request(&data, ImageDescriptionRequest::Other), None);
}

#[test]
fn a_description_is_built_up_from_requests() {
    let mut state = state(vec![Feature::SetLuminances, Feature::SetMasteringDisplayPrimaries]);
    let mut params = match state.manager_request(ManagerRequest::CreateParametricCreator) {
        Ok(ManagerReply::InitParametricCreator { builder }) => builder,
        other => panic!("{:?}", other),
    };
    for request in [
        ParamsRequest::SetTfNamed { tf: 11 },
        ParamsRequest::SetPrimariesNamed { primaries: 6 },
        ParamsRequest::SetMasteringLuminance { min_lum: 50, max_lum: 1000 },
        ParamsRequest::SetMaxCll { max_cll: 1 },
        ParamsRequest::SetMaxCll { max_cll: 800 },
        ParamsRequest::SetMaxFall { max_fall: 400 },
        ParamsRequest::SetLuminances { min_lum: 0, max_lum: 10000, reference_lum: 203 },
        ParamsRequest::SetMasteringDisplayPrimaries,
        ParamsRequest::Other,
    ] {
        assert!(matches!(state.params_request(&mut params, request), Ok(None)));
    }
    let ready = state.params_request(&mut params, ParamsRequest::Create).unwrap().unwrap();
    assert_eq!(ready.data.description(), pq());
    assert_eq!(ready.identity, 1);
    assert_eq!(state.identity_for(pq()), 1);
}

#[test]
fn creating_needs_transfer_function_and_primaries() {
    let mut state = state(Vec::new());
    let incomplete = refused(
        ParamsError::IncompleteSet,
        "transfer function and primaries are both required",
    );
    let mut params = ImageDescriptionBuilder::default();
    assert_eq!(
        state.params_request(&mut params, ParamsRequest::Create).unwrap_err(),
        incomplete
    );
    state.params_request(&mut params, ParamsRequest::SetTfNamed { tf: 9 }).unwrap();
    assert_eq!(
        state.params_request(&mut params, ParamsRequest::Create).unwrap_err(),
        incomplete
    );
    let mut params = ImageDescriptionBuilder::default();
    state.params_request(&mut params, ParamsRequest::SetPrimariesNamed { primaries: 1 }).unwrap();
    assert_eq!(
        state.params_request(&mut params, ParamsRequest::Create).unwrap_err(),
        incomplete
    );
}

#[test]
fn named_parameters_are_set_once() {
    let mut state = state(Vec::new());
    let mut params = ImageDescriptionBuilder::default();
    state.params_request(&mut params, ParamsRequest::SetTfNamed { tf: 11 }).unwrap();
    // That it is set already is told before whether the new value is valid.
    for tf in [11u32, 9, 99] {
        assert_eq!(
            state.params_request(&mut params, ParamsRequest::SetTfNamed { tf }).unwrap_err(),
            refused(ParamsError::AlreadySet, "transfer function already set")
        );
    }
    state.params_request(&mut params, ParamsRequest::SetPrimariesNamed { primaries: 6 }).unwrap();
    for primaries in [6u32, 1, 99] {
        assert_eq!(
            state
                .params_request(&mut params, ParamsRequest::SetPrimariesNamed { primaries })
                .unwrap_err(),
            refused(ParamsError::AlreadySet, "primaries already set")
        );
    }
    let desc = params.build().unwrap();
    assert_eq!(desc.transfer, TransferFunction::St2084Pq);
    assert_eq!(desc.primaries, Primaries::Bt2020);
}

#[test]
fn what_is_not_advertised_is_refused() {
    let mut state = state(Vec::new());
    let mut params = ImageDescriptionBuilder::default();
    // Hybrid log-gamma is known but not advertised; the others are unknown.
    for tf in [13u32, 0, 15, u32::MAX] {
        assert_eq!(
            state.params_request(&mut params, ParamsRequest::SetTfNamed { tf }).unwrap_err(),
            refused(ParamsError::InvalidTf, "unsupported transfer function")
        );
    }
    for primaries in [9u32, 0, 11, u32::MAX] {
        assert_eq!(
            state
                .params_request(&mut params, ParamsRequest::SetPrimariesNamed { primaries })
                .unwrap_err(),
            refused(ParamsError::InvalidPrimariesNamed, "unsupported primaries")
        );
    }
    assert_eq!(
        state
            .params_request(
                &mut params,
                ParamsRequest::SetLuminances { min_lum: 1, max_lum: 2, reference_lum: 3 }
            )
            .unwrap_err(),
        refused(ParamsError::UnsupportedFeature, "set_luminances is not supported")
    );
    assert_eq!(
        state
            .params_request(&mut params, ParamsRequest::SetMasteringDisplayPrimaries)
            .unwrap_err(),
        refused(
            ParamsError::UnsupportedFeature,
            "set_mastering_display_primaries is not supported"
        )
    );
    // Nothing of this was kept: both named parameters can still be set.
    assert_eq!(params.build(), None);
    state.params_request(&mut params, ParamsRequest::SetTfNamed { tf: 9 }).unwrap();
    assert_eq!(params.build(), None);
    state.params_request(&mut params, ParamsRequest::SetPrimariesNamed { primaries: 1 }).unwrap();
    assert_eq!(params.build(), Some(ImageDescription::srgb()));
}

#[test]
fn numeric_transfer_functions_and_primaries_are_refused_even_if_advertised() {
    let mut state = state(vec![Feature::SetTfPower, Feature::SetPrimaries]);
    let mut params = ImageDescriptionBuilder::default();
    assert_eq!(
        state.params_request(&mut params, ParamsRequest::SetTfPower).unwrap_err(),
        refused(ParamsError::UnsupportedFeature, "set_tf_power is not supported")
    );
    assert_eq!(
        state.params_request(&mut params, ParamsRequest::SetPrimaries).unwrap_err(),
        refused(ParamsError::UnsupportedFeature, "set_primaries is not supported")
    );
}

#[test]
fn icc_and_windows_scrgb_are_refused() {
    let mut state = state(vec![Feature::IccV2V4, Feature::WindowsScrgb]);
    assert_eq!(
        state.manager_request(ManagerRequest::CreateIccCreator).unwrap_err(),
        ProtocolError {
            error: ManagerError::UnsupportedFeature,
            message: "ICC image descriptions are not supported",
        }
    );
    assert_eq!(
        state.manager_request(ManagerRequest::CreateWindowsScrgb).unwrap_err(),
        ProtocolError {
            error: ManagerError::UnsupportedFeature,
            message: "Windows scRGB image descriptions are not supported",
        }
    );
    assert!(matches!(
        state.manager_request(ManagerRequest::Destroy),
        Ok(ManagerReply::Nothing)
    ));
    assert!(matches!(state.manager_request(ManagerRequest::Other), Ok(ManagerReply::Nothing)));
}
