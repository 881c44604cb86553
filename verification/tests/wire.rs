use color_management::{
    Feature, FeedbackError, ManagerError, ParamsError, Primaries, RenderIntent, SurfaceError,
    TransferFunction,
};
use wayland_protocols::wp::color_management::v1::server::{
    wp_color_management_surface_feedback_v1, wp_color_management_surface_v1, wp_color_manager_v1,
    wp_image_description_creator_params_v1,
};

const TFS: [(TransferFunction, wp_color_manager_v1::TransferFunction); 14] = [
    (TransferFunction::Bt1886, wp_color_manager_v1::TransferFunction::Bt1886),
    (TransferFunction::Gamma22, wp_color_manager_v1::TransferFunction::Gamma22),
    (TransferFunction::Gamma28, wp_color_manager_v1::TransferFunction::Gamma28),
    (TransferFunction::St240, wp_color_manager_v1::TransferFunction::St240),
    (TransferFunction::ExtLinear, wp_color_manager_v1::TransferFunction::ExtLinear),
    (TransferFunction::Log100, wp_color_manager_v1::TransferFunction::Log100),
    (TransferFunction::Log316, wp_color_manager_v1::TransferFunction::Log316),
    (TransferFunction::Xvycc, wp_color_manager_v1::TransferFunction::Xvycc),
    (TransferFunction::Srgb, wp_color_manager_v1::TransferFunction::Srgb),
    (TransferFunction::ExtSrgb, wp_color_manager_v1::TransferFunction::ExtSrgb),
    (TransferFunction::St2084Pq, wp_color_manager_v1::TransferFunction::St2084Pq),
    (TransferFunction::St428, wp_color_manager_v1::TransferFunction::St428),
    (TransferFunction::Hlg, wp_color_manager_v1::TransferFunction::Hlg),
    (TransferFunction::CompoundPower24, wp_color_manager_v1::TransferFunction::CompoundPower24),
];

const PRIMARIES: [(Primaries, wp_color_manager_v1::Primaries); 10] = [
    (Primaries::Srgb, wp_color_manager_v1::Primaries::Srgb),
    (Primaries::PalM, wp_color_manager_v1::Primaries::PalM),
    (Primaries::Pal, wp_color_manager_v1::Primaries::Pal),
    (Primaries::Ntsc, wp_color_manager_v1::Primaries::Ntsc),
    (Primaries::GenericFilm, wp_color_manager_v1::Primaries::GenericFilm),
    (Primaries::Bt2020, wp_color_manager_v1::Primaries::Bt2020),
    (Primaries::Cie1931Xyz, wp_color_manager_v1::Primaries::Cie1931Xyz),
    (Primaries::DciP3, wp_color_manager_v1::Primaries::DciP3),
    (Primaries::DisplayP3, wp_color_manager_v1::Primaries::DisplayP3),
    (Primaries::AdobeRgb, wp_color_manager_v1::Primaries::AdobeRgb),
];

const INTENTS: [(RenderIntent, wp_color_manager_v1::RenderIntent); 6] = [
    (RenderIntent::Perceptual, wp_color_manager_v1::RenderIntent::Perceptual),
    (RenderIntent::Relative, wp_color_manager_v1::RenderIntent::Relative),
    (RenderIntent::Saturation, wp_color_manager_v1::RenderIntent::Saturation),
    (RenderIntent::Absolute, wp_color_manager_v1::RenderIntent::Absolute),
    (RenderIntent::RelativeBpc, wp_color_manager_v1::RenderIntent::RelativeBpc),
    (RenderIntent::AbsoluteNoAdaptation, wp_color_manager_v1::RenderIntent::AbsoluteNoAdaptation),
];

const FEATURES: [(Feature, wp_color_manager_v1::Feature); 9] = [
    (Feature::IccV2V4, wp_color_manager_v1::Feature::IccV2V4),
    (Feature::Parametric, wp_color_manager_v1::Feature::Parametric),
    (Feature::SetPrimaries, wp_color_manager_v1::Feature::SetPrimaries),
    (Feature::SetTfPower, wp_color_manager_v1::Feature::SetTfPower),
    (Feature::SetLuminances, wp_color_manager_v1::Feature::SetLuminances),
    (
        Feature::SetMasteringDisplayPrimaries,
        wp_color_manager_v1::Feature::SetMasteringDisplayPrimaries,
    ),
    (Feature::ExtendedTargetVolume, wp_color_manager_v1::Feature::ExtendedTargetVolume),
    (Feature::WindowsScrgb, wp_color_manager_v1::Feature::WindowsScrgb),
    (Feature::WindowsBt2100, wp_color_manager_v1::Feature::WindowsBt2100),
];

#[test]
fn transfer_functions_have_the_numbers_of_the_protocol() {
    for (ours, theirs) in TFS {
        assert_eq!(ours.code(), u32::from(theirs));
        assert_eq!(TransferFunction::decode(u32::from(theirs)), Some(ours));
    }
}

#[test]
fn primaries_have_the_numbers_of_the_protocol() {
    for (ours, theirs) in PRIMARIES {
        assert_eq!(ours.code(), u32::from(theirs));
        assert_eq!(Primaries::decode(u32::from(theirs)), Some(ours));
    }
}

#[test]
fn render_intents_have_the_numbers_of_the_protocol() {
    for (ours, theirs) in INTENTS {
        assert_eq!(ours.code(), u32::from(theirs));
        assert_eq!(RenderIntent::decode(u32::from(theirs)), Some(ours));
    }
}

#[test]
fn features_have_the_numbers_of_the_protocol() {
    for (ours, theirs) in FEATURES {
        assert_eq!(ours.code(), u32::from(theirs));
    }
}

#[test]
fn unknown_numbers_stand_for_nothing() {
    for code in [0u32, 15, 16, 256, u32::MAX] {
        assert_eq!(TransferFunction::decode(code), None);
    }
    for code in [0u32, 11, 12, 256, u32::MAX] {
        assert_eq!(Primaries::decode(code), None);
    }
    for code in [6u32, 7, 256, u32::MAX] {
        assert_eq!(RenderIntent::decode(code), None);
    }
}

#[test]
fn the_protocol_knows_no_number_that_the_library_does_not() {
    for code in 0u32..1000 {
        assert_eq!(
            wp_color_manager_v1::TransferFunction::try_from(code).is_ok(),
            TransferFunction::decode(code).is_some()
        );
        assert_eq!(
            wp_color_manager_v1::Primaries::try_from(code).is_ok(),
            Primaries::decode(code).is_some()
        );
        assert_eq!(
            wp_color_manager_v1::RenderIntent::try_from(code).is_ok(),
            RenderIntent::decode(code).is_some()
        );
    }
}

#[test]
fn exact_numbers() {
    assert_eq!(TransferFunction::decode(11), Some(TransferFunction::St2084Pq));
    assert_eq!(TransferFunction::decode(13), Some(TransferFunction::Hlg));
    assert_eq!(Primaries::decode(6), Some(Primaries::Bt2020));
    assert_eq!(RenderIntent::decode(0), Some(RenderIntent::Perceptual));
    assert_eq!(Feature::SetLuminances.code(), 4);
}

#[test]
fn errors_have_the_numbers_of_the_protocol() {
    assert_eq!(
        ManagerError::UnsupportedFeature.code(),
        u32::from(wp_color_manager_v1::Error::UnsupportedFeature)
    );
    assert_eq!(ManagerError::SurfaceExists.code(), u32::from(wp_color_manager_v1::Error::SurfaceExists));
    assert_eq!(SurfaceError::RenderIntent.code(), u32::from(wp_color_management_surface_v1::Error::RenderIntent));
    assert_eq!(
        SurfaceError::ImageDescription.code(),
        u32::from(wp_color_management_surface_v1::Error::ImageDescription)
    );
    assert_eq!(SurfaceError::Inert.code(), u32::from(wp_color_management_surface_v1::Error::Inert));
    assert_eq!(FeedbackError::Inert.code(), u32::from(wp_color_management_surface_feedback_v1::Error::Inert));
    assert_eq!(ParamsError::IncompleteSet.code(), u32::from(wp_image_description_creator_params_v1::Error::IncompleteSet));
    assert_eq!(ParamsError::AlreadySet.code(), u32::from(wp_image_description_creator_params_v1::Error::AlreadySet));
    assert_eq!(
        ParamsError::UnsupportedFeature.code(),
        u32::from(wp_image_description_creator_params_v1::Error::UnsupportedFeature)
    );
    assert_eq!(ParamsError::InvalidTf.code(), u32::from(wp_image_description_creator_params_v1::Error::InvalidTf));
    assert_eq!(
        ParamsError::InvalidPrimariesNamed.code(),
        u32::from(wp_image_description_creator_params_v1::Error::InvalidPrimariesNamed)
    );
}
