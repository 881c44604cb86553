//! What the compositor contributes: answers about its outputs and surfaces, and which clients may
//! see the global.

use vstd::prelude::*;

use crate::description::ImageDescription;
use crate::state::ColorManagementState;

verus! {

/// Handler trait for wp-color-management-v1.
pub trait ColorManagementHandler: Sized {
    /// How the compositor refers to a `wl_surface`.
    type Surface;

    /// How the compositor refers to one of its outputs.
    type Output;

    /// How the compositor refers to a `wp_image_description_info_v1`.
    type Info;

    /// Returns the [`ColorManagementState`].
    fn color_management_state(&mut self) -> &mut ColorManagementState;

    /// Called when a surface's *pending* image description changed (set or unset). The
    /// committed value becomes visible via
    /// [`get_surface_description`](crate::get_surface_description) after the next
    /// `wl_surface.commit`; compositors typically re-evaluate color handling for the
    /// surface's output on the next redraw.
    ///
    /// Does nothing by default.
    fn image_description_changed(&mut self, _surface: &Self::Surface)
        default_ensures
            *final(self) == *old(self),
    {
    }

    /// The image description describing how the compositor presents the given output.
    ///
    /// Defaults to sRGB.
    fn description_for_output(&mut self, _output: &Self::Output) -> (desc: ImageDescription)
        default_ensures
            desc == ImageDescription::srgb(),
            *final(self) == *old(self),
    {
        ImageDescription::srgb()
    }

    /// The image description the compositor would prefer the given surface to use, reported
    /// via the surface feedback object.
    ///
    /// Defaults to sRGB.
    fn preferred_description_for_surface(&mut self, _surface: &Self::Surface) -> (desc:
        ImageDescription)
        default_ensures
            desc == ImageDescription::srgb(),
            *final(self) == *old(self),
    {
        ImageDescription::srgb()
    }

    /// Schedules sending the information events for `info` (describing `desc`), to run
    /// *after* the current request dispatch returns; see
    /// [`send_image_description_info`](crate::send_image_description_info).
    /// This MUST be deferred (e.g. via an event loop idle callback):
    /// `wp_image_description_info_v1.done` is a destructor event, and destroying the object
    /// inside the very callback that created it corrupts wayland-backend's bookkeeping (it
    /// writes the new object's data after the callback returns, which would then be a
    /// use-after-free).
    fn schedule_image_description_info(&mut self, info: Self::Info, desc: ImageDescription);
}

/// Global data of `wp_color_manager_v1`, carrying the client visibility filter.
pub struct ColorManagementGlobalData<F> {
    filter: F,
}

impl<F> ColorManagementGlobalData<F> {
    /// The filter.
    pub closed spec fn filter(self) -> F {
        self.filter
    }

    /// The data of a global that is only visible to clients for which `filter` returns `true`.
    pub fn new(filter: F) -> (data: Self)
        ensures
            data.filter() == filter,
    {
        ColorManagementGlobalData { filter }
    }

    /// Whether `client` may see the global: what the filter says of it.
    pub fn can_view<C>(&self, client: C) -> (visible: bool) where F: Fn(&C) -> bool
        requires
            call_requires(self.filter(), (&client,)),
        ensures
            call_ensures(self.filter(), (&client,), visible),
    {
        (self.filter)(&client)
    }
}

} // verus!
