//! What the requests of the protocol's objects do.

use vstd::prelude::*;

use crate::description::{
    ImageDescription, ImageDescriptionBuilder, ImageDescriptionData, ParamsView,
};
use crate::state::{ColorManagementState, ReadyDescription, StateView};
use crate::surface::{set_pending_description, ColorManagementSurfaceCachedState, SurfaceStates};
use crate::wire::{Feature, Primaries, RenderIntent, TransferFunction};

verus! {

/// A protocol error, which is posted on the object that got the request and ends the client's
/// connection.
#[derive(Debug, PartialEq, Eq)]
pub struct ProtocolError<E> {
    /// Which error of the object's interface it is.
    pub error: E,
    /// What went wrong, for the client's developer.
    pub message: &'static str,
}

/// The errors of `wp_color_manager_v1`.
#[derive(Debug, Clone, Copy, PartialEq, Eq, Structural)]
pub enum ManagerError {
    /// `unsupported_feature`.
    UnsupportedFeature,
    /// `surface_exists`.
    SurfaceExists,
}

impl ManagerError {
    /// The number of the error on the wire.
    #[verifier::allow_in_spec]
    pub fn code(self) -> (code: u32)
        returns
            (match self {
                ManagerError::UnsupportedFeature => 0u32,
                ManagerError::SurfaceExists => 1u32,
            }),
    {
        match self {
            ManagerError::UnsupportedFeature => 0,
            ManagerError::SurfaceExists => 1,
        }
    }
}

/// A request of `wp_color_manager_v1`.
#[derive(Debug)]
pub enum ManagerRequest<'a> {
    /// `get_output`, creating the object with this key.
    GetOutput { id: u64 },
    /// `get_surface`, for this surface.
    GetSurface { surface: &'a mut SurfaceStates },
    /// `get_surface_feedback`, for this surface, creating the object with this key.
    GetSurfaceFeedback { id: u64, surface: &'a mut SurfaceStates },
    /// `create_parametric_creator`.
    CreateParametricCreator,
    /// `create_icc_creator`.
    CreateIccCreator,
    /// `create_windows_scrgb`.
    CreateWindowsScrgb,
    /// `destroy`.
    Destroy,
    /// A request that version 1 of the interface does not have.
    Other,
}

/// What to do about a request of `wp_color_manager_v1` that is not refused.
#[derive(Debug)]
pub enum ManagerReply {
    /// Initialize the new `wp_color_management_output_v1`.
    InitOutput,
    /// Initialize the new `wp_color_management_surface_v1`.
    InitSurface,
    /// Initialize the new `wp_color_management_surface_feedback_v1`.
    InitSurfaceFeedback,
    /// Initialize the new `wp_image_description_creator_params_v1` with this builder.
    InitParametricCreator { builder: ImageDescriptionBuilder },
    /// Nothing.
    Nothing,
}

impl ColorManagementState {
    /// Handles a request of `wp_color_manager_v1`.
    pub fn manager_request(&mut self, request: ManagerRequest) -> (reply: Result<
        ManagerReply,
        ProtocolError<ManagerError>,
    >)
        ensures
            old(self).wf() ==> final(self).wf(),
            final(self)@ == (match request {
                ManagerRequest::GetOutput { id } => old(self)@.track_output(id),
                _ => old(self)@,
            }),
            request is GetSurface ==> final(request->GetSurface_surface)@ == old(
                request->GetSurface_surface,
            )@.attach(),
            request is GetSurfaceFeedback ==> final(request->GetSurfaceFeedback_surface)@ == old(
                request->GetSurfaceFeedback_surface,
            )@.track(request->GetSurfaceFeedback_id),
            match request {
                ManagerRequest::GetOutput { .. } => reply == Ok::<_, ProtocolError<ManagerError>>(
                    ManagerReply::InitOutput,
                ),
                ManagerRequest::GetSurface { .. } => reply == (if old(
                    request->GetSurface_surface,
                )@.is_attached() {
                    Err(
                        ProtocolError {
                            error: ManagerError::SurfaceExists,
                            message: "surface already has a wp_color_management_surface_v1",
                        },
                    )
                } else {
                    Ok(ManagerReply::InitSurface)
                }),
                ManagerRequest::GetSurfaceFeedback { .. } => reply == Ok::<
                    _,
                    ProtocolError<ManagerError>,
                >(ManagerReply::InitSurfaceFeedback),
                ManagerRequest::CreateParametricCreator => {
                    &&& reply is Ok
                    &&& reply->Ok_0 is InitParametricCreator
                    &&& reply->Ok_0->builder@ == ParamsView::blank()
                },
                ManagerRequest::CreateIccCreator => reply == Err::<ManagerReply, _>(
                    ProtocolError {
                        error: ManagerError::UnsupportedFeature,
                        message: "ICC image descriptions are not supported",
                    },
                ),
                ManagerRequest::CreateWindowsScrgb => reply == Err::<ManagerReply, _>(
                    ProtocolError {
                        error: ManagerError::UnsupportedFeature,
                        message: "Windows scRGB image descriptions are not supported",
                    },
                ),
                ManagerRequest::Destroy | ManagerRequest::Other => reply == Ok::<
                    _,
                    ProtocolError<ManagerError>,
                >(ManagerReply::Nothing),
            },
    {
        match request {
            ManagerRequest::GetOutput { id } => {
                self.track_output(id);
                Ok(ManagerReply::InitOutput)
            },
            ManagerRequest::GetSurface { surface } => {
                if surface.attach() {
                    return Err(
                        ProtocolError {
                            error: ManagerError::SurfaceExists,
                            message: "surface already has a wp_color_management_surface_v1",
                        },
                    );
                }
                Ok(ManagerReply::InitSurface)
            },
            ManagerRequest::GetSurfaceFeedback { id, surface } => {
                surface.track_feedback(id);
                Ok(ManagerReply::InitSurfaceFeedback)
            },
            ManagerRequest::CreateParametricCreator => {
                Ok(
                    ManagerReply::InitParametricCreator {
                        builder: ImageDescriptionBuilder::default(),
                    },
                )
            },
            ManagerRequest::CreateIccCreator => {
                Err(
                    ProtocolError {
                        error: ManagerError::UnsupportedFeature,
                        message: "ICC image descriptions are not supported",
                    },
                )
            },
            ManagerRequest::CreateWindowsScrgb => {
                Err(
                    ProtocolError {
                        error: ManagerError::UnsupportedFeature,
                        message: "Windows scRGB image descriptions are not supported",
                    },
                )
            },
            ManagerRequest::Destroy | ManagerRequest::Other => Ok(ManagerReply::Nothing),
        }
    }
}

/// A request of `wp_color_management_output_v1`.
#[derive(Debug, Clone, Copy)]
pub enum OutputRequest {
    /// `get_image_description`, with what
    /// [`ColorManagementHandler::description_for_output`](crate::ColorManagementHandler) says of
    /// the output; none if the `wl_output` belongs to no output any more.
    GetImageDescription { described: Option<ImageDescription> },
    /// `destroy`.
    Destroy,
    /// A request that version 1 of the interface does not have.
    Other,
}

impl OutputRequest {
    /// The description that the request is answered with, if it asks for one: that of the output,
    /// or sRGB where there is no output.
    pub open spec fn answer(self) -> Option<ImageDescription> {
        match self {
            OutputRequest::GetImageDescription { described: Some(desc) } => Some(desc),
            OutputRequest::GetImageDescription { described: None } => Some(
                ImageDescription::srgb(),
            ),
            _ => None,
        }
    }
}

/// The errors of `wp_color_management_surface_v1`.
#[derive(Debug, Clone, Copy, PartialEq, Eq, Structural)]
pub enum SurfaceError {
    /// `render_intent`.
    RenderIntent,
    /// `image_description`.
    ImageDescription,
    /// `inert`.
    Inert,
}

impl SurfaceError {
    /// The number of the error on the wire.
    #[verifier::allow_in_spec]
    pub fn code(self) -> (code: u32)
        returns
            (match self {
                SurfaceError::RenderIntent => 0u32,
                SurfaceError::ImageDescription => 1u32,
                SurfaceError::Inert => 2u32,
            }),
    {
        match self {
            SurfaceError::RenderIntent => 0,
            SurfaceError::ImageDescription => 1,
            SurfaceError::Inert => 2,
        }
    }
}

/// A request of `wp_color_management_surface_v1`.
#[derive(Debug, Clone, Copy)]
pub enum SurfaceRequest {
    /// `set_image_description`, with what the given object represents, if it represents anything,
    /// and the number of the rendering intent.
    SetImageDescription { image_description: Option<ImageDescription>, render_intent: u32 },
    /// `unset_image_description`.
    UnsetImageDescription,
    /// `destroy`.
    Destroy,
    /// A request that version 1 of the interface does not have.
    Other,
}

impl SurfaceRequest {
    /// Whether the request sets the pending state.
    pub open spec fn sets_pending(self) -> bool {
        self is SetImageDescription || self is UnsetImageDescription
    }

    /// The error that refuses the request, if any, given whether the surface is `alive`.
    pub open spec fn refusal(self, state: StateView, alive: bool) -> Option<
        ProtocolError<SurfaceError>,
    > {
        if self.sets_pending() && !alive {
            Some(
                ProtocolError {
                    error: SurfaceError::Inert,
                    message: "the underlying wl_surface was destroyed",
                },
            )
        } else {
            match self {
                SurfaceRequest::SetImageDescription {
                    image_description,
                    render_intent,
                } => if !supports_intent_code(state, render_intent) {
                    Some(
                        ProtocolError {
                            error: SurfaceError::RenderIntent,
                            message: "unsupported rendering intent",
                        },
                    )
                } else if image_description is None {
                    Some(
                        ProtocolError {
                            error: SurfaceError::ImageDescription,
                            message: "image description is not ready",
                        },
                    )
                } else {
                    None
                },
                _ => None,
            }
        }
    }

    /// The pending state after the request was accepted.
    pub open spec fn pending_after(
        self,
        pending: ColorManagementSurfaceCachedState,
    ) -> ColorManagementSurfaceCachedState {
        match self {
            SurfaceRequest::SetImageDescription {
                image_description,
                render_intent,
            } => ColorManagementSurfaceCachedState {
                description: image_description,
                render_intent: RenderIntent::of_code(render_intent)->0,
            },
            SurfaceRequest::UnsetImageDescription => ColorManagementSurfaceCachedState::unset(),
            _ => pending,
        }
    }
}

/// Whether a number stands for a rendering intent that clients may use.
pub open spec fn supports_intent_code(state: StateView, code: u32) -> bool {
    match RenderIntent::of_code(code) {
        Some(intent) => state.supported_intents.contains(intent),
        None => false,
    }
}

/// Whether a number stands for a transfer function that clients may use.
pub open spec fn supports_tf_code(state: StateView, code: u32) -> bool {
    match TransferFunction::of_code(code) {
        Some(tf) => state.supported_tfs.contains(tf),
        None => false,
    }
}

/// Whether a number stands for primaries that clients may use.
pub open spec fn supports_primaries_code(state: StateView, code: u32) -> bool {
    match Primaries::of_code(code) {
        Some(primaries) => state.supported_primaries.contains(primaries),
        None => false,
    }
}

/// The errors of `wp_color_management_surface_feedback_v1`.
#[derive(Debug, Clone, Copy, PartialEq, Eq, Structural)]
pub enum FeedbackError {
    /// `inert`.
    Inert,
}

impl FeedbackError {
    /// The number of the error on the wire.
    #[verifier::allow_in_spec]
    pub fn code(self) -> (code: u32)
        returns
            (match self {
                FeedbackError::Inert => 0u32,
            }),
    {
        match self {
            FeedbackError::Inert => 0,
        }
    }
}

/// A request of `wp_color_management_surface_feedback_v1`.
#[derive(Debug, Clone, Copy)]
pub enum FeedbackRequest {
    /// `get_preferred`, with what
    /// [`ColorManagementHandler::preferred_description_for_surface`](crate::ColorManagementHandler)
    /// says of the surface; none if the surface was destroyed.
    GetPreferred { preferred: Option<ImageDescription> },
    /// `get_preferred_parametric`, likewise.
    GetPreferredParametric { preferred: Option<ImageDescription> },
    /// `destroy`.
    Destroy,
    /// A request that version 1 of the interface does not have.
    Other,
}

impl FeedbackRequest {
    /// The description that the request is answered with, if it asks for one and there is one.
    pub open spec fn answer(self) -> Option<ImageDescription> {
        match self {
            FeedbackRequest::GetPreferred { preferred } => preferred,
            FeedbackRequest::GetPreferredParametric { preferred } => preferred,
            _ => None,
        }
    }

    /// Whether the request asks for the description that a destroyed surface should use.
    pub open spec fn is_inert(self) -> bool {
        (self is GetPreferred || self is GetPreferredParametric) && self.answer() is None
    }
}

/// The errors of `wp_image_description_creator_params_v1`.
#[derive(Debug, Clone, Copy, PartialEq, Eq, Structural)]
pub enum ParamsError {
    /// `incomplete_set`.
    IncompleteSet,
    /// `already_set`.
    AlreadySet,
    /// `unsupported_feature`.
    UnsupportedFeature,
    /// `invalid_tf`.
    InvalidTf,
    /// `invalid_primaries_named`.
    InvalidPrimariesNamed,
}

impl ParamsError {
    /// The number of the error on the wire.
    #[verifier::allow_in_spec]
    pub fn code(self) -> (code: u32)
        returns
            (match self {
                ParamsError::IncompleteSet => 0u32,
                ParamsError::AlreadySet => 1u32,
                ParamsError::UnsupportedFeature => 2u32,
                ParamsError::InvalidTf => 3u32,
                ParamsError::InvalidPrimariesNamed => 4u32,
            }),
    {
        match self {
            ParamsError::IncompleteSet => 0,
            ParamsError::AlreadySet => 1,
            ParamsError::UnsupportedFeature => 2,
            ParamsError::InvalidTf => 3,
            ParamsError::InvalidPrimariesNamed => 4,
        }
    }
}

/// A request of `wp_image_description_creator_params_v1`.
#[derive(Debug, Clone, Copy)]
pub enum ParamsRequest {
    /// `set_tf_named`, with the number of the transfer function.
    SetTfNamed { tf: u32 },
    /// `set_primaries_named`, with the number of the primaries.
    SetPrimariesNamed { primaries: u32 },
    /// `set_mastering_luminance`.
    SetMasteringLuminance { min_lum: u32, max_lum: u32 },
    /// `set_max_cll`.
    SetMaxCll { max_cll: u32 },
    /// `set_max_fall`.
    SetMaxFall { max_fall: u32 },
    /// `set_luminances`.
    SetLuminances { min_lum: u32, max_lum: u32, reference_lum: u32 },
    /// `set_mastering_display_primaries`, whose values are not used yet.
    SetMasteringDisplayPrimaries,
    /// `set_tf_power`.
    SetTfPower,
    /// `set_primaries`.
    SetPrimaries,
    /// `create`.
    Create,
    /// A request that version 1 of the interface does not have.
    Other,
}

impl ParamsRequest {
    /// The error that refuses the request, if any.
    pub open spec fn refusal(self, state: StateView, params: ParamsView) -> Option<
        ProtocolError<ParamsError>,
    > {
        match self {
            ParamsRequest::SetTfNamed { tf } => if params.transfer is Some {
                Some(
                    ProtocolError {
                        error: ParamsError::AlreadySet,
                        message: "transfer function already set",
                    },
                )
            } else if !supports_tf_code(state, tf) {
                Some(
                    ProtocolError {
                        error: ParamsError::InvalidTf,
                        message: "unsupported transfer function",
                    },
                )
            } else {
                None
            },
            ParamsRequest::SetPrimariesNamed { primaries } => if params.primaries is Some {
                Some(
                    ProtocolError {
                        error: ParamsError::AlreadySet,
                        message: "primaries already set",
                    },
                )
            } else if !supports_primaries_code(state, primaries) {
                Some(
                    ProtocolError {
                        error: ParamsError::InvalidPrimariesNamed,
                        message: "unsupported primaries",
                    },
                )
            } else {
                None
            },
            ParamsRequest::SetLuminances { .. } => if !state.supported_features.contains(
                Feature::SetLuminances,
            ) {
                Some(
                    ProtocolError {
                        error: ParamsError::UnsupportedFeature,
                        message: "set_luminances is not supported",
                    },
                )
            } else {
                None
            },
            ParamsRequest::SetMasteringDisplayPrimaries => if !state.supported_features.contains(
                Feature::SetMasteringDisplayPrimaries,
            ) {
                Some(
                    ProtocolError {
                        error: ParamsError::UnsupportedFeature,
                        message: "set_mastering_display_primaries is not supported",
                    },
                )
            } else {
                None
            },
            ParamsRequest::SetTfPower => Some(
                ProtocolError {
                    error: ParamsError::UnsupportedFeature,
                    message: "set_tf_power is not supported",
                },
            ),
            ParamsRequest::SetPrimaries => Some(
                ProtocolError {
                    error: ParamsError::UnsupportedFeature,
                    message: "set_primaries is not supported",
                },
            ),
            ParamsRequest::Create => if !params.is_complete() {
                Some(
                    ProtocolError {
                        error: ParamsError::IncompleteSet,
                        message: "transfer function and primaries are both required",
                    },
                )
            } else {
                None
            },
            _ => None,
        }
    }

    /// The parameters after the request was accepted.
    pub open spec fn params_after(self, params: ParamsView) -> ParamsView {
        match self {
            ParamsRequest::SetTfNamed { tf } => ParamsView {
                transfer: TransferFunction::of_code(tf),
                ..params
            },
            ParamsRequest::SetPrimariesNamed { primaries } => ParamsView {
                primaries: Primaries::of_code(primaries),
                ..params
            },
            ParamsRequest::SetMasteringLuminance { min_lum, max_lum } => ParamsView {
                mastering_luminance: Some((min_lum, max_lum)),
                ..params
            },
            ParamsRequest::SetMaxCll { max_cll } => ParamsView {
                max_cll: Some(max_cll),
                ..params
            },
            ParamsRequest::SetMaxFall { max_fall } => ParamsView {
                max_fall: Some(max_fall),
                ..params
            },
            ParamsRequest::SetLuminances {
                min_lum,
                max_lum,
                reference_lum,
            } => ParamsView {
                luminances: Some((min_lum, max_lum, reference_lum)),
                ..params
            },
            _ => params,
        }
    }

    /// The description that the request creates, if it creates one.
    pub open spec fn answer(self, params: ParamsView) -> Option<ImageDescription> {
        if self is Create && params.is_complete() {
            Some(params.described())
        } else {
            None
        }
    }
}

/// A request of `wp_image_description_v1`.
#[derive(Debug, Clone, Copy)]
pub enum ImageDescriptionRequest {
    /// `get_information`.
    GetInformation,
    /// `destroy`.
    Destroy,
    /// A request that version 1 of the interface does not have.
    Other,
}

/// Whether `ready` is what answers a request for `answer` and the state has come to know it.
pub open spec fn readied(
    before: StateView,
    after: StateView,
    answer: Option<ImageDescription>,
    ready: Option<ReadyDescription>,
) -> bool {
    match answer {
        Some(desc) => {
            &&& after == before.register(desc)
            &&& ready is Some
            &&& ready->0.data@ == desc
            &&& ready->0.identity == after.identity(desc)
        },
        None => {
            &&& after == before
            &&& ready is None
        },
    }
}

impl ColorManagementState {
    /// The rendering intent that a number stands for, if clients may use it.
    fn supported_intent(&self, code: u32) -> (supported: Option<RenderIntent>)
        ensures
            supported == (if supports_intent_code(self@, code) {
                RenderIntent::of_code(code)
            } else {
                None
            }),
    {
        match RenderIntent::decode(code) {
            Some(intent) => if self.supports_intent(intent) {
                Some(intent)
            } else {
                None
            },
            None => None,
        }
    }

    /// The transfer function that a number stands for, if clients may use it.
    fn supported_tf(&self, code: u32) -> (supported: Option<TransferFunction>)
        ensures
            supported == (if supports_tf_code(self@, code) {
                TransferFunction::of_code(code)
            } else {
                None
            }),
    {
        match TransferFunction::decode(code) {
            Some(tf) => if self.supports_tf(tf) {
                Some(tf)
            } else {
                None
            },
            None => None,
        }
    }

    /// The primaries that a number stands for, if clients may use them.
    fn supported_primaries_named(&self, code: u32) -> (supported: Option<Primaries>)
        ensures
            supported == (if supports_primaries_code(self@, code) {
                Primaries::of_code(code)
            } else {
                None
            }),
    {
        match Primaries::decode(code) {
            Some(primaries) => if self.supports_primaries(primaries) {
                Some(primaries)
            } else {
                None
            },
            None => None,
        }
    }

    /// Handles a request of `wp_color_management_output_v1`. Returns the `wp_image_description_v1`
    /// to initialize, if one is asked for.
    pub fn output_request(&mut self, request: OutputRequest) -> (ready: Option<ReadyDescription>)
        requires
            old(self).wf(),
            request.answer() is Some ==> old(self)@.can_identify(request.answer()->0),
        ensures
            final(self).wf(),
            readied(old(self)@, final(self)@, request.answer(), ready),
    {
        match request {
            OutputRequest::GetImageDescription { described } => {
                let desc = described.unwrap_or(ImageDescription::srgb());
                Some(self.make_ready_description(desc))
            },
            OutputRequest::Destroy | OutputRequest::Other => None,
        }
    }

    /// Handles a request of `wp_color_management_surface_v1`; there is no `surface` if it was
    /// destroyed. Returns whether the surface's pending image description changed, of which
    /// [`ColorManagementHandler::image_description_changed`](crate::ColorManagementHandler) is to
    /// be told.
    pub fn surface_request(
        &self,
        surface: Option<&mut SurfaceStates>,
        request: SurfaceRequest,
    ) -> (reply: Result<bool, ProtocolError<SurfaceError>>)
        ensures
            match request.refusal(self@, surface is Some) {
                Some(error) => {
                    &&& reply == Err::<bool, _>(error)
                    &&& surface is Some ==> final(surface->0)@ == old(surface->0)@
                },
                None => {
                    &&& reply == Ok::<_, ProtocolError<SurfaceError>>(
                        surface is Some && old(surface->0)@.pending != request.pending_after(
                            old(surface->0)@.pending,
                        ),
                    )
                    &&& surface is Some ==> final(surface->0)@ == old(surface->0)@.set_pending(
                        request.pending_after(old(surface->0)@.pending),
                    )
                },
            },
    {
        match request {
            SurfaceRequest::SetImageDescription { image_description, render_intent } => {
                let surface = match surface {
                    Some(surface) => surface,
                    None => {
                        return Err(
                            ProtocolError {
                                error: SurfaceError::Inert,
                                message: "the underlying wl_surface was destroyed",
                            },
                        );
                    },
                };
                let render_intent = match self.supported_intent(render_intent) {
                    Some(intent) => intent,
                    None => {
                        return Err(
                            ProtocolError {
                                error: SurfaceError::RenderIntent,
                                message: "unsupported rendering intent",
                            },
                        );
                    },
                };
                if image_description.is_none() {
                    return Err(
                        ProtocolError {
                            error: SurfaceError::ImageDescription,
                            message: "image description is not ready",
                        },
                    );
                }
                Ok(set_pending_description(surface, image_description, render_intent))
            },
            SurfaceRequest::UnsetImageDescription => {
                match surface {
                    Some(surface) => Ok(
                        set_pending_description(surface, None, RenderIntent::Perceptual),
                    ),
                    None => Err(
                        ProtocolError {
                            error: SurfaceError::Inert,
                            message: "the underlying wl_surface was destroyed",
                        },
                    ),
                }
            },
            SurfaceRequest::Destroy | SurfaceRequest::Other => Ok(false),
        }
    }

    /// Handles a request of `wp_color_management_surface_feedback_v1`. Returns the
    /// `wp_image_description_v1` to initialize, if one is asked for.
    pub fn feedback_request(&mut self, request: FeedbackRequest) -> (reply: Result<
        Option<ReadyDescription>,
        ProtocolError<FeedbackError>,
    >)
        requires
            old(self).wf(),
            request.answer() is Some ==> old(self)@.can_identify(request.answer()->0),
        ensures
            final(self).wf(),
            request.is_inert() ==> reply == Err::<Option<ReadyDescription>, _>(
                (ProtocolError {
                    error: FeedbackError::Inert,
                    message: "the underlying wl_surface was destroyed",
                }),
            ) && final(self)@ == old(self)@,
            !request.is_inert() ==> reply is Ok && readied(
                old(self)@,
                final(self)@,
                request.answer(),
                reply->Ok_0,
            ),
    {
        match request {
            FeedbackRequest::GetPreferred { preferred }
            | FeedbackRequest::GetPreferredParametric { preferred } => {
                match preferred {
                    Some(desc) => Ok(Some(self.make_ready_description(desc))),
                    None => Err(
                        ProtocolError {
                            error: FeedbackError::Inert,
                            message: "the underlying wl_surface was destroyed",
                        },
                    ),
                }
            },
            FeedbackRequest::Destroy | FeedbackRequest::Other => Ok(None),
        }
    }

    /// Handles a request of `wp_image_description_creator_params_v1`. Returns the
    /// `wp_image_description_v1` to initialize, if one is created.
    pub fn params_request(
        &mut self,
        params: &mut ImageDescriptionBuilder,
        request: ParamsRequest,
    ) -> (reply: Result<Option<ReadyDescription>, ProtocolError<ParamsError>>)
        requires
            old(self).wf(),
            request.answer(old(params)@) is Some ==> old(self)@.can_identify(
                request.answer(old(params)@)->0,
            ),
        ensures
            final(self).wf(),
            match request.refusal(old(self)@, old(params)@) {
                Some(error) => {
                    &&& reply == Err::<Option<ReadyDescription>, _>(error)
                    &&& final(params)@ == old(params)@
                    &&& final(self)@ == old(self)@
                },
                None => {
                    &&& reply is Ok
                    &&& final(params)@ == request.params_after(old(params)@)
                    &&& readied(
                        old(self)@,
                        final(self)@,
                        request.answer(old(params)@),
                        reply->Ok_0,
                    )
                },
            },
    {
        match request {
            ParamsRequest::SetTfNamed { tf } => {
                if params.transfer.is_some() {
                    return Err(
                        ProtocolError {
                            error: ParamsError::AlreadySet,
                            message: "transfer function already set",
                        },
                    );
                }
                match self.supported_tf(tf) {
                    Some(tf) => {
                        params.transfer = Some(tf);
                    },
                    None => {
                        return Err(
                            ProtocolError {
                                error: ParamsError::InvalidTf,
                                message: "unsupported transfer function",
                            },
                        );
                    },
                }
            },
            ParamsRequest::SetPrimariesNamed { primaries } => {
                if params.primaries.is_some() {
                    return Err(
                        ProtocolError {
                            error: ParamsError::AlreadySet,
                            message: "primaries already set",
                        },
                    );
                }
                match self.supported_primaries_named(primaries) {
                    Some(primaries) => {
                        params.primaries = Some(primaries);
                    },
                    None => {
                        return Err(
                            ProtocolError {
                                error: ParamsError::InvalidPrimariesNamed,
                                message: "unsupported primaries",
                            },
                        );
                    },
                }
            },
            ParamsRequest::SetMasteringLuminance { min_lum, max_lum } => {
                params.mastering_luminance = Some((min_lum, max_lum));
            },
            ParamsRequest::SetMaxCll { max_cll } => {
                params.max_cll = Some(max_cll);
            },
            ParamsRequest::SetMaxFall { max_fall } => {
                params.max_fall = Some(max_fall);
            },
            ParamsRequest::SetLuminances { min_lum, max_lum, reference_lum } => {
                if !self.supports_feature(Feature::SetLuminances) {
                    return Err(
                        ProtocolError {
                            error: ParamsError::UnsupportedFeature,
                            message: "set_luminances is not supported",
                        },
                    );
                }
                params.luminances = Some((min_lum, max_lum, reference_lum));
            },
            ParamsRequest::SetMasteringDisplayPrimaries => {
                // Accepted (if advertised) so HDR clients can convey mastering metadata
                // without erroring; the values are not used yet.
                if !self.supports_feature(Feature::SetMasteringDisplayPrimaries) {
                    return Err(
                        ProtocolError {
                            error: ParamsError::UnsupportedFeature,
                            message: "set_mastering_display_primaries is not supported",
                        },
                    );
                }
            },
            ParamsRequest::SetTfPower => {
                return Err(
                    ProtocolError {
                        error: ParamsError::UnsupportedFeature,
                        message: "set_tf_power is not supported",
                    },
                );
            },
            ParamsRequest::SetPrimaries => {
                return Err(
                    ProtocolError {
                        error: ParamsError::UnsupportedFeature,
                        message: "set_primaries is not supported",
                    },
                );
            },
            ParamsRequest::Create => {
                return match params.build() {
                    Some(desc) => Ok(Some(self.make_ready_description(desc))),
                    None => Err(
                        ProtocolError {
                            error: ParamsError::IncompleteSet,
                            message: "transfer function and primaries are both required",
                        },
                    ),
                };
            },
            ParamsRequest::Other => {},
        }
        Ok(None)
    }
}

/// Handles a request of the `wp_image_description_v1` that `data` belongs to. Returns the
/// description to hand to
/// [`ColorManagementHandler::schedule_image_description_info`](crate::ColorManagementHandler), if
/// information is asked for.
pub fn image_description_request(
    data: &ImageDescriptionData,
    request: ImageDescriptionRequest,
) -> (described: Option<ImageDescription>)
    ensures
        described == (if request is GetInformation {
            Some(data@)
        } else {
            None
        }),
{
    match request {
        ImageDescriptionRequest::GetInformation => Some(data.description()),
        ImageDescriptionRequest::Destroy | ImageDescriptionRequest::Other => None,
    }
}

/// Cleans up after a `wp_color_management_surface_v1` was destroyed; there is no `surface` if it
/// was destroyed too. Returns whether the surface's pending image description changed.
///
/// Destroying the object does the same as unset_image_description, and allows attaching a new
/// `wp_color_management_surface_v1` to the surface.
pub fn surface_destroyed(surface: Option<&mut SurfaceStates>) -> (changed: bool)
    ensures
        changed == (surface is Some && old(surface->0)@.pending.description is Some),
        surface is Some ==> final(surface->0)@ == old(surface->0)@.detach(),
{
    match surface {
        Some(surface) => surface.detach(),
        None => false,
    }
}

/// Cleans up after a `wp_color_management_surface_feedback_v1` was destroyed; there is no
/// `surface` if it was destroyed too.
pub fn feedback_destroyed(surface: Option<&mut SurfaceStates>, feedback: u64)
    ensures
        surface is Some ==> final(surface->0)@ == old(surface->0)@.untrack(feedback),
{
    if let Some(surface) = surface {
        surface.untrack_feedback(feedback);
    }
}

} // verus!
