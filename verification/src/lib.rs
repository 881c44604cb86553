//! The rules of the wp-color-management-v1 protocol (the stabilized staging version shipped in
//! wayland-protocols), for use in a compositor.
//!
//! Clients use this protocol to describe the colorimetry of their surface contents (e.g.
//! BT.2020 primaries with the ST 2084 PQ transfer function for HDR video) by creating
//! parametric image descriptions and attaching them to a `wl_surface`. The attached
//! description is double-buffered surface state; the committed value can be read with
//! [`get_surface_description`]. What the compositor *does* with that information (HDR
//! signalling, color conversion, tone mapping) is entirely up to the compositor.
//!
//! Only *parametric* image descriptions with *named* transfer functions and primaries are
//! supported; ICC-file and Windows-scRGB descriptions are rejected with `unsupported_feature`.
//! The compositor chooses which transfer functions, primaries, features and rendering intents
//! to advertise when creating the [`ColorManagementState`].
//!
//! The library decides; it neither reads nor writes the Wayland connection. Requests come in as
//! values, with protocol objects given by keys of the caller's choice, and what is to be done about
//! them (objects to initialize, events to send, errors to post) comes back as values.
//!
//! - [`wire`]: the enumerations of the protocol and their numbers.
//! - [`description`]: image descriptions, their creation and their reporting.
//! - [`surface`]: what is kept on a surface.
//! - [`state`]: what is advertised, the identities of descriptions, notices of changes.
//! - [`request`]: the requests of the protocol's objects.
//! - [`handler`]: what the compositor contributes.
//! - [`laws`]: what holds across these.
//! - [`calls`]: what goes into the calls of these and what comes out.

pub mod calls;
pub mod description;
pub mod handler;
pub mod laws;
pub mod lookup;
pub mod request;
pub mod state;
pub mod surface;
pub mod wire;

pub use description::{
    send_image_description_info, ImageDescription, ImageDescriptionBuilder, ImageDescriptionData,
    InfoEvent,
};
pub use handler::{ColorManagementGlobalData, ColorManagementHandler};
pub use request::{
    feedback_destroyed, image_description_request, surface_destroyed, FeedbackError,
    FeedbackRequest, ImageDescriptionRequest, ManagerError, ManagerReply, ManagerRequest,
    OutputRequest, ParamsError, ParamsRequest, ProtocolError, SurfaceError, SurfaceRequest,
};
pub use state::{
    ColorManagementState, LiveOutputObject, ManagerEvent, PreferredChanged, ReadyDescription,
};
pub use surface::{
    get_surface_description, set_pending_description, ColorManagementSurfaceCachedState,
    ColorManagementSurfaceData, SurfaceStates,
};
pub use wire::{Feature, Primaries, RenderIntent, TransferFunction};
