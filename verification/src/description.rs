//! Parametric image descriptions: what they hold, how a client builds one up, and how one is
//! reported back to a client.

use vstd::prelude::*;

use crate::lookup::Distinguishable;
use crate::wire::{Primaries, TransferFunction};

verus! {

/// A parsed, immutable parametric image description.
///
/// Only named transfer functions and primaries are representable.
#[derive(Debug, Clone, Copy, Eq)]
pub struct ImageDescription {
    /// The transfer characteristics of the content.
    pub transfer: TransferFunction,
    /// The color primaries of the content.
    pub primaries: Primaries,
    /// Maximum content light level in cd/m², if the client provided it.
    pub max_cll: Option<u32>,
    /// Maximum frame-average light level in cd/m², if provided.
    pub max_fall: Option<u32>,
    /// Mastering display luminance as (min in 0.0001 cd/m², max in cd/m²), if provided.
    pub mastering_luminance: Option<(u32, u32)>,
    /// Content luminances as (min in 0.0001 cd/m², max in cd/m², reference white in cd/m²),
    /// if provided.
    pub luminances: Option<(u32, u32, u32)>,
}

impl PartialEq for ImageDescription {
    fn eq(&self, other: &Self) -> (same: bool) {
        self.transfer == other.transfer && self.primaries == other.primaries && self.max_cll
            == other.max_cll && self.max_fall == other.max_fall && (match (
            self.mastering_luminance,
            other.mastering_luminance,
        ) {
            (Some(ours), Some(theirs)) => ours.0 == theirs.0 && ours.1 == theirs.1,
            (None, None) => true,
            _ => false,
        }) && (match (self.luminances, other.luminances) {
            (Some(ours), Some(theirs)) => ours.0 == theirs.0 && ours.1 == theirs.1 && ours.2
                == theirs.2,
            (None, None) => true,
            _ => false,
        })
    }
}

impl vstd::std_specs::cmp::PartialEqSpecImpl for ImageDescription {
    open spec fn obeys_eq_spec() -> bool {
        true
    }

    open spec fn eq_spec(&self, other: &Self) -> bool {
        *self == *other
    }
}

impl Distinguishable for ImageDescription {
    fn same(self, other: Self) -> (same: bool) {
        self == other
    }
}

impl ImageDescription {
    /// sRGB / sRGB: the default SDR description, also used for surfaces without an attached
    /// description.
    #[verifier::allow_in_spec]
    pub fn srgb() -> (desc: Self)
        returns
            (ImageDescription {
                transfer: TransferFunction::Srgb,
                primaries: Primaries::Srgb,
                max_cll: None,
                max_fall: None,
                mastering_luminance: None,
                luminances: None,
            }),
    {
        ImageDescription {
            transfer: TransferFunction::Srgb,
            primaries: Primaries::Srgb,
            max_cll: None,
            max_fall: None,
            mastering_luminance: None,
            luminances: None,
        }
    }

    /// Whether this description denotes HDR/wide-gamut content: an HDR transfer function
    /// (PQ or HLG) or BT.2020 primaries.
    pub fn is_hdr(&self) -> (hdr: bool)
        ensures
            hdr == (self.transfer == TransferFunction::St2084Pq || self.transfer
                == TransferFunction::Hlg || self.primaries == Primaries::Bt2020),
    {
        matches!(self.transfer, TransferFunction::St2084Pq | TransferFunction::Hlg) || matches!(
            self.primaries,
            Primaries::Bt2020
        )
    }
}

/// User data of a `wp_image_description_v1`: the parsed description it represents.
#[derive(Debug)]
pub struct ImageDescriptionData {
    desc: ImageDescription,
}

impl View for ImageDescriptionData {
    type V = ImageDescription;

    closed spec fn view(&self) -> ImageDescription {
        self.desc
    }
}

impl ImageDescriptionData {
    /// The user data for an object that represents `desc`.
    pub fn new(desc: ImageDescription) -> (data: Self)
        ensures
            data@ == desc,
    {
        ImageDescriptionData { desc }
    }

    /// The description this object represents.
    pub fn description(&self) -> (desc: ImageDescription)
        ensures
            desc == self@,
    {
        self.desc
    }
}

/// Accumulated parameters of a `wp_image_description_creator_params_v1`.
#[derive(Debug, Clone, Copy)]
pub struct ImageDescriptionBuilder {
    pub(crate) transfer: Option<TransferFunction>,
    pub(crate) primaries: Option<Primaries>,
    pub(crate) max_cll: Option<u32>,
    pub(crate) max_fall: Option<u32>,
    pub(crate) mastering_luminance: Option<(u32, u32)>,
    pub(crate) luminances: Option<(u32, u32, u32)>,
}

/// The content of an [`ImageDescriptionBuilder`].
pub struct ParamsView {
    /// The transfer function, once set.
    pub transfer: Option<TransferFunction>,
    /// The primaries, once set.
    pub primaries: Option<Primaries>,
    /// Maximum content light level, if set.
    pub max_cll: Option<u32>,
    /// Maximum frame-average light level, if set.
    pub max_fall: Option<u32>,
    /// Mastering display luminance as (min, max), if set.
    pub mastering_luminance: Option<(u32, u32)>,
    /// Content luminances as (min, max, reference white), if set.
    pub luminances: Option<(u32, u32, u32)>,
}

impl ParamsView {
    /// No parameter set.
    pub open spec fn blank() -> Self {
        ParamsView {
            transfer: None,
            primaries: None,
            max_cll: None,
            max_fall: None,
            mastering_luminance: None,
            luminances: None,
        }
    }

    /// Whether both the transfer function and the primaries are set.
    pub open spec fn is_complete(self) -> bool {
        self.transfer is Some && self.primaries is Some
    }

    /// The description made of complete parameters.
    pub open spec fn described(self) -> ImageDescription
        recommends
            self.is_complete(),
    {
        ImageDescription {
            transfer: self.transfer->0,
            primaries: self.primaries->0,
            max_cll: self.max_cll,
            max_fall: self.max_fall,
            mastering_luminance: self.mastering_luminance,
            luminances: self.luminances,
        }
    }
}

impl View for ImageDescriptionBuilder {
    type V = ParamsView;

    open(crate) spec fn view(&self) -> ParamsView {
        ParamsView {
            transfer: self.transfer,
            primaries: self.primaries,
            max_cll: self.max_cll,
            max_fall: self.max_fall,
            mastering_luminance: self.mastering_luminance,
            luminances: self.luminances,
        }
    }
}

impl Default for ImageDescriptionBuilder {
    /// No parameter set.
    fn default() -> (builder: Self)
        ensures
            builder@ == ParamsView::blank(),
    {
        ImageDescriptionBuilder {
            transfer: None,
            primaries: None,
            max_cll: None,
            max_fall: None,
            mastering_luminance: None,
            luminances: None,
        }
    }
}

impl ImageDescriptionBuilder {
    /// The description made of the parameters, if the required ones are set.
    pub fn build(&self) -> (desc: Option<ImageDescription>)
        ensures
            desc == (if self@.is_complete() {
                Some(self@.described())
            } else {
                None
            }),
    {
        match (self.transfer, self.primaries) {
            (Some(transfer), Some(primaries)) => Some(
                ImageDescription {
                    transfer,
                    primaries,
                    max_cll: self.max_cll,
                    max_fall: self.max_fall,
                    mastering_luminance: self.mastering_luminance,
                    luminances: self.luminances,
                },
            ),
            _ => None,
        }
    }
}

/// An event of `wp_image_description_info_v1`.
#[derive(Debug, Clone, Copy, PartialEq, Eq, Structural)]
pub enum InfoEvent {
    /// `primaries_named`.
    PrimariesNamed { primaries: Primaries },
    /// `tf_named`.
    TfNamed { tf: TransferFunction },
    /// `target_luminance`.
    TargetLuminance { min_lum: u32, max_lum: u32 },
    /// `target_max_cll`.
    TargetMaxCll { max_cll: u32 },
    /// `target_max_fall`.
    TargetMaxFall { max_fall: u32 },
    /// `done`, which destroys the object.
    Done,
}

/// The mastering luminance events that describe `desc`: one if it has a mastering luminance.
pub open spec fn target_luminance_events(desc: ImageDescription) -> Seq<InfoEvent> {
    match desc.mastering_luminance {
        Some(range) => seq![InfoEvent::TargetLuminance { min_lum: range.0, max_lum: range.1 }],
        None => seq![],
    }
}

/// The content light level events that describe `desc`: one if it has a maximum.
pub open spec fn target_max_cll_events(desc: ImageDescription) -> Seq<InfoEvent> {
    match desc.max_cll {
        Some(max_cll) => seq![InfoEvent::TargetMaxCll { max_cll }],
        None => seq![],
    }
}

/// The frame-average light level events that describe `desc`: one if it has a maximum.
pub open spec fn target_max_fall_events(desc: ImageDescription) -> Seq<InfoEvent> {
    match desc.max_fall {
        Some(max_fall) => seq![InfoEvent::TargetMaxFall { max_fall }],
        None => seq![],
    }
}

/// The events that describe `desc`, from first to last.
pub open spec fn info_events(desc: ImageDescription) -> Seq<InfoEvent> {
    seq![
        InfoEvent::PrimariesNamed { primaries: desc.primaries },
        InfoEvent::TfNamed { tf: desc.transfer },
    ] + target_luminance_events(desc) + target_max_cll_events(desc) + target_max_fall_events(desc)
        + seq![InfoEvent::Done]
}

/// The information events to send on a `wp_image_description_info_v1` that is to describe `desc`,
/// ending in the destructor `done`; none if the object is no longer alive.
///
/// The events must be sent outside the request callback that created the object (e.g. from an
/// event-loop idle), as
/// [`ColorManagementHandler::schedule_image_description_info`](crate::ColorManagementHandler)
/// explains.
pub fn send_image_description_info(alive: bool, desc: &ImageDescription) -> (events: Vec<InfoEvent>)
    ensures
        events@ == (if alive {
            info_events(*desc)
        } else {
            Seq::<InfoEvent>::empty()
        }),
{
    let mut events: Vec<InfoEvent> = Vec::new();
    if !alive {
        return events;
    }
    events.push(InfoEvent::PrimariesNamed { primaries: desc.primaries });
    events.push(InfoEvent::TfNamed { tf: desc.transfer });
    if let Some((min_lum, max_lum)) = desc.mastering_luminance {
        events.push(InfoEvent::TargetLuminance { min_lum, max_lum });
    }
    if let Some(max_cll) = desc.max_cll {
        events.push(InfoEvent::TargetMaxCll { max_cll });
    }
    if let Some(max_fall) = desc.max_fall {
        events.push(InfoEvent::TargetMaxFall { max_fall });
    }
    events.push(InfoEvent::Done);
    assert(events@ =~= info_events(*desc));
    events
}

} // verus!
