//! The enumerations of `wp_color_manager_v1` and their numbers on the wire.

use vstd::prelude::*;

use crate::lookup::Distinguishable;

use wayland_protocols::wp::color_management::v1::server::wp_color_manager_v1;
use wayland_server::WEnum;

verus! {

/// A named transfer function, as in `wp_color_manager_v1.transfer_function`.
#[derive(Debug, Clone, Copy, PartialEq, Eq, Structural)]
pub enum TransferFunction {
    /// BT.1886 display transfer characteristic.
    Bt1886,
    /// Assumed display gamma 2.2.
    Gamma22,
    /// Assumed display gamma 2.8.
    Gamma28,
    /// SMPTE ST 240.
    St240,
    /// Extended linear.
    ExtLinear,
    /// Logarithmic, 100:1 range.
    Log100,
    /// Logarithmic, 100 * sqrt(10):1 range.
    Log316,
    /// IEC 61966-2-4.
    Xvycc,
    /// sRGB piece-wise.
    Srgb,
    /// Extended sRGB piece-wise.
    ExtSrgb,
    /// SMPTE ST 2084, the perceptual quantizer.
    St2084Pq,
    /// SMPTE ST 428.
    St428,
    /// Hybrid log-gamma.
    Hlg,
    /// Compound power 2.4.
    CompoundPower24,
}

impl TransferFunction {
    /// The number that stands for this value on the wire.
    #[verifier::allow_in_spec]
    pub fn code(self) -> (code: u32)
        returns
            (match self {
                TransferFunction::Bt1886 => 1u32,
                TransferFunction::Gamma22 => 2u32,
                TransferFunction::Gamma28 => 3u32,
                TransferFunction::St240 => 4u32,
                TransferFunction::ExtLinear => 5u32,
                TransferFunction::Log100 => 6u32,
                TransferFunction::Log316 => 7u32,
                TransferFunction::Xvycc => 8u32,
                TransferFunction::Srgb => 9u32,
                TransferFunction::ExtSrgb => 10u32,
                TransferFunction::St2084Pq => 11u32,
                TransferFunction::St428 => 12u32,
                TransferFunction::Hlg => 13u32,
                TransferFunction::CompoundPower24 => 14u32,
            }),
    {
        match self {
            TransferFunction::Bt1886 => 1,
            TransferFunction::Gamma22 => 2,
            TransferFunction::Gamma28 => 3,
            TransferFunction::St240 => 4,
            TransferFunction::ExtLinear => 5,
            TransferFunction::Log100 => 6,
            TransferFunction::Log316 => 7,
            TransferFunction::Xvycc => 8,
            TransferFunction::Srgb => 9,
            TransferFunction::ExtSrgb => 10,
            TransferFunction::St2084Pq => 11,
            TransferFunction::St428 => 12,
            TransferFunction::Hlg => 13,
            TransferFunction::CompoundPower24 => 14,
        }
    }

    /// The value that a number on the wire stands for, if it stands for one.
    pub open spec fn of_code(code: u32) -> Option<TransferFunction> {
        match code {
            1 => Some(TransferFunction::Bt1886),
            2 => Some(TransferFunction::Gamma22),
            3 => Some(TransferFunction::Gamma28),
            4 => Some(TransferFunction::St240),
            5 => Some(TransferFunction::ExtLinear),
            6 => Some(TransferFunction::Log100),
            7 => Some(TransferFunction::Log316),
            8 => Some(TransferFunction::Xvycc),
            9 => Some(TransferFunction::Srgb),
            10 => Some(TransferFunction::ExtSrgb),
            11 => Some(TransferFunction::St2084Pq),
            12 => Some(TransferFunction::St428),
            13 => Some(TransferFunction::Hlg),
            14 => Some(TransferFunction::CompoundPower24),
            _ => None,
        }
    }

    /// Interprets a number from the wire.
    pub fn decode(code: u32) -> (value: Option<TransferFunction>)
        ensures
            value == TransferFunction::of_code(code),
    {
        match recognised_transfer_function(code) {
            Some(1) => Some(TransferFunction::Bt1886),
            Some(2) => Some(TransferFunction::Gamma22),
            Some(3) => Some(TransferFunction::Gamma28),
            Some(4) => Some(TransferFunction::St240),
            Some(5) => Some(TransferFunction::ExtLinear),
            Some(6) => Some(TransferFunction::Log100),
            Some(7) => Some(TransferFunction::Log316),
            Some(8) => Some(TransferFunction::Xvycc),
            Some(9) => Some(TransferFunction::Srgb),
            Some(10) => Some(TransferFunction::ExtSrgb),
            Some(11) => Some(TransferFunction::St2084Pq),
            Some(12) => Some(TransferFunction::St428),
            Some(13) => Some(TransferFunction::Hlg),
            Some(14) => Some(TransferFunction::CompoundPower24),
            _ => None,
        }
    }
}

impl Distinguishable for TransferFunction {
    fn same(self, other: Self) -> (same: bool) {
        self == other
    }
}

/// Named color primaries, as in `wp_color_manager_v1.primaries`.
#[derive(Debug, Clone, Copy, PartialEq, Eq, Structural)]
pub enum Primaries {
    /// sRGB, the same as BT.709.
    Srgb,
    /// Color primaries of PAL-M.
    PalM,
    /// Color primaries of PAL.
    Pal,
    /// Color primaries of NTSC.
    Ntsc,
    /// Generic film with colour filters using Illuminant C.
    GenericFilm,
    /// BT.2020 and BT.2100.
    Bt2020,
    /// The CIE 1931 XYZ axes.
    Cie1931Xyz,
    /// DCI-P3.
    DciP3,
    /// Display P3.
    DisplayP3,
    /// Adobe RGB.
    AdobeRgb,
}

impl Primaries {
    /// The number that stands for this value on the wire.
    #[verifier::allow_in_spec]
    pub fn code(self) -> (code: u32)
        returns
            (match self {
                Primaries::Srgb => 1u32,
                Primaries::PalM => 2u32,
                Primaries::Pal => 3u32,
                Primaries::Ntsc => 4u32,
                Primaries::GenericFilm => 5u32,
                Primaries::Bt2020 => 6u32,
                Primaries::Cie1931Xyz => 7u32,
                Primaries::DciP3 => 8u32,
                Primaries::DisplayP3 => 9u32,
                Primaries::AdobeRgb => 10u32,
            }),
    {
        match self {
            Primaries::Srgb => 1,
            Primaries::PalM => 2,
            Primaries::Pal => 3,
            Primaries::Ntsc => 4,
            Primaries::GenericFilm => 5,
            Primaries::Bt2020 => 6,
            Primaries::Cie1931Xyz => 7,
            Primaries::DciP3 => 8,
            Primaries::DisplayP3 => 9,
            Primaries::AdobeRgb => 10,
        }
    }

    /// The value that a number on the wire stands for, if it stands for one.
    pub open spec fn of_code(code: u32) -> Option<Primaries> {
        match code {
            1 => Some(Primaries::Srgb),
            2 => Some(Primaries::PalM),
            3 => Some(Primaries::Pal),
            4 => Some(Primaries::Ntsc),
            5 => Some(Primaries::GenericFilm),
            6 => Some(Primaries::Bt2020),
            7 => Some(Primaries::Cie1931Xyz),
            8 => Some(Primaries::DciP3),
            9 => Some(Primaries::DisplayP3),
            10 => Some(Primaries::AdobeRgb),
            _ => None,
        }
    }

    /// Interprets a number from the wire.
    pub fn decode(code: u32) -> (value: Option<Primaries>)
        ensures
            value == Primaries::of_code(code),
    {
        match recognised_primaries(code) {
            Some(1) => Some(Primaries::Srgb),
            Some(2) => Some(Primaries::PalM),
            Some(3) => Some(Primaries::Pal),
            Some(4) => Some(Primaries::Ntsc),
            Some(5) => Some(Primaries::GenericFilm),
            Some(6) => Some(Primaries::Bt2020),
            Some(7) => Some(Primaries::Cie1931Xyz),
            Some(8) => Some(Primaries::DciP3),
            Some(9) => Some(Primaries::DisplayP3),
            Some(10) => Some(Primaries::AdobeRgb),
            _ => None,
        }
    }
}

impl Distinguishable for Primaries {
    fn same(self, other: Self) -> (same: bool) {
        self == other
    }
}

/// A rendering intent, as in `wp_color_manager_v1.render_intent`.
#[derive(Debug, Clone, Copy, PartialEq, Eq, Structural)]
pub enum RenderIntent {
    /// Perceptual.
    Perceptual,
    /// Media-relative colorimetric.
    Relative,
    /// Saturation.
    Saturation,
    /// ICC-absolute colorimetric.
    Absolute,
    /// Media-relative colorimetric with black point compensation.
    RelativeBpc,
    /// ICC-absolute colorimetric without adaptation.
    AbsoluteNoAdaptation,
}

impl RenderIntent {
    /// The number that stands for this value on the wire.
    #[verifier::allow_in_spec]
    pub fn code(self) -> (code: u32)
        returns
            (match self {
                RenderIntent::Perceptual => 0u32,
                RenderIntent::Relative => 1u32,
                RenderIntent::Saturation => 2u32,
                RenderIntent::Absolute => 3u32,
                RenderIntent::RelativeBpc => 4u32,
                RenderIntent::AbsoluteNoAdaptation => 5u32,
            }),
    {
        match self {
            RenderIntent::Perceptual => 0,
            RenderIntent::Relative => 1,
            RenderIntent::Saturation => 2,
            RenderIntent::Absolute => 3,
            RenderIntent::RelativeBpc => 4,
            RenderIntent::AbsoluteNoAdaptation => 5,
        }
    }

    /// The value that a number on the wire stands for, if it stands for one.
    pub open spec fn of_code(code: u32) -> Option<RenderIntent> {
        match code {
            0 => Some(RenderIntent::Perceptual),
            1 => Some(RenderIntent::Relative),
            2 => Some(RenderIntent::Saturation),
            3 => Some(RenderIntent::Absolute),
            4 => Some(RenderIntent::RelativeBpc),
            5 => Some(RenderIntent::AbsoluteNoAdaptation),
            _ => None,
        }
    }

    /// Interprets a number from the wire.
    pub fn decode(code: u32) -> (value: Option<RenderIntent>)
        ensures
            value == RenderIntent::of_code(code),
    {
        match recognised_render_intent(code) {
            Some(0) => Some(RenderIntent::Perceptual),
            Some(1) => Some(RenderIntent::Relative),
            Some(2) => Some(RenderIntent::Saturation),
            Some(3) => Some(RenderIntent::Absolute),
            Some(4) => Some(RenderIntent::RelativeBpc),
            Some(5) => Some(RenderIntent::AbsoluteNoAdaptation),
            _ => None,
        }
    }
}

impl Distinguishable for RenderIntent {
    fn same(self, other: Self) -> (same: bool) {
        self == other
    }
}

/// A compositor feature, as in `wp_color_manager_v1.feature`.
#[derive(Debug, Clone, Copy, PartialEq, Eq, Structural)]
pub enum Feature {
    /// Image descriptions from ICC files.
    IccV2V4,
    /// Image descriptions from parameters.
    Parametric,
    /// Primaries given by chromaticities.
    SetPrimaries,
    /// Transfer functions given by an exponent.
    SetTfPower,
    /// Primary color volume luminances.
    SetLuminances,
    /// Mastering display primaries.
    SetMasteringDisplayPrimaries,
    /// Target color volumes beyond the primary one.
    ExtendedTargetVolume,
    /// The Windows-scRGB description.
    WindowsScrgb,
    /// The Windows-BT.2100 description.
    WindowsBt2100,
}

impl Feature {
    /// The number that stands for this value on the wire.
    #[verifier::allow_in_spec]
    pub fn code(self) -> (code: u32)
        returns
            (match self {
                Feature::IccV2V4 => 0u32,
                Feature::Parametric => 1u32,
                Feature::SetPrimaries => 2u32,
                Feature::SetTfPower => 3u32,
                Feature::SetLuminances => 4u32,
                Feature::SetMasteringDisplayPrimaries => 5u32,
                Feature::ExtendedTargetVolume => 6u32,
                Feature::WindowsScrgb => 7u32,
                Feature::WindowsBt2100 => 8u32,
            }),
    {
        match self {
            Feature::IccV2V4 => 0,
            Feature::Parametric => 1,
            Feature::SetPrimaries => 2,
            Feature::SetTfPower => 3,
            Feature::SetLuminances => 4,
            Feature::SetMasteringDisplayPrimaries => 5,
            Feature::ExtendedTargetVolume => 6,
            Feature::WindowsScrgb => 7,
            Feature::WindowsBt2100 => 8,
        }
    }
}

impl Distinguishable for Feature {
    fn same(self, other: Self) -> (same: bool) {
        self == other
    }
}

/// Hands `code` to `WEnum::<wp_color_manager_v1::TransferFunction>::from` and the result to
/// `WEnum::into_result`, and takes a recognised value back to its number with `u32::from`.
///
/// Taken on trust: exactly the numbers 1 to 14 are recognised, and a recognised value keeps its
/// number.
#[verifier::external_body]
fn recognised_transfer_function(code: u32) -> (recognised: Option<u32>)
    ensures
        recognised == (if 1 <= code <= 14 { Some(code) } else { None }),
{
    WEnum::<wp_color_manager_v1::TransferFunction>::from(code).into_result().ok().map(u32::from)
}

/// Hands `code` to `WEnum::<wp_color_manager_v1::Primaries>::from` and the result to
/// `WEnum::into_result`, and takes a recognised value back to its number with `u32::from`.
///
/// Taken on trust: exactly the numbers 1 to 10 are recognised, and a recognised value keeps its
/// number.
#[verifier::external_body]
fn recognised_primaries(code: u32) -> (recognised: Option<u32>)
    ensures
        recognised == (if 1 <= code <= 10 { Some(code) } else { None }),
{
    WEnum::<wp_color_manager_v1::Primaries>::from(code).into_result().ok().map(u32::from)
}

/// Hands `code` to `WEnum::<wp_color_manager_v1::RenderIntent>::from` and the result to
/// `WEnum::into_result`, and takes a recognised value back to its number with `u32::from`.
///
/// Taken on trust: exactly the numbers 0 to 5 are recognised, and a recognised value keeps its
/// number.
#[verifier::external_body]
fn recognised_render_intent(code: u32) -> (recognised: Option<u32>)
    ensures
        recognised == (if code <= 5 { Some(code) } else { None }),
{
    WEnum::<wp_color_manager_v1::RenderIntent>::from(code).into_result().ok().map(u32::from)
}

} // verus!
