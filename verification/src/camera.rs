//! A camera: the size of the screen, the size of the part of the world that
//! is in view, and the point of the world at the centre of the view.
//!
//! The camera is generic in the vector type `V`, of which it only asks that
//! vectors can be copied and added. It keeps the three vectors and moves the
//! centre; mapping between world and screen coordinates is arithmetic on the
//! vectors' components and is left to the host, which knows their type.

use vstd::prelude::*;
use vstd::std_specs::ops::AddSpec;

verus! {

pub struct Camera<V> {
    screen_size: V,
    view_size: V,
    view_center: V,
}

impl<V> Camera<V> {
    /// The size of the screen, in pixels.
    pub closed spec fn screen(&self) -> V {
        self.screen_size
    }

    /// The size of the view, in world units.
    pub closed spec fn extent(&self) -> V {
        self.view_size
    }

    /// The point of the world at the centre of the view.
    pub closed spec fn center(&self) -> V {
        self.view_center
    }

    /// A camera for a screen of `screen_size` pixels that shows `view_size`
    /// units of the world around `view_center`.
    pub fn new(screen_size: V, view_size: V, view_center: V) -> (camera: Self)
        ensures
            camera.screen() == screen_size,
            camera.extent() == view_size,
            camera.center() == view_center,
    {
        Camera { screen_size, view_size, view_center }
    }

    /// Moves the centre of the view by `by`.
    pub fn move_by(&mut self, by: V) where V: core::ops::Add<Output = V> + Copy
        requires
            old(self).center().add_req(by),
        ensures
            V::obeys_add_spec() ==> final(self).center() == old(self).center().add_spec(by),
            final(self).screen() == old(self).screen(),
            final(self).extent() == old(self).extent(),
    {
        self.view_center = self.view_center + by;
    }

    /// Moves the centre of the view to `to`.
    pub fn move_to(&mut self, to: V)
        ensures
            final(self).center() == to,
            final(self).screen() == old(self).screen(),
            final(self).extent() == old(self).extent(),
    {
        self.view_center = to;
    }

    /// The point of the world at the centre of the view.
    pub fn location(&self) -> (at: V) where V: Copy
        ensures
            at == self.center(),
    {
        self.view_center
    }

    /// The size of the screen, in pixels.
    pub fn screen_size(&self) -> (size: V) where V: Copy
        ensures
            size == self.screen(),
    {
        self.screen_size
    }

    /// The size of the view, in world units.
    pub fn view_size(&self) -> (size: V) where V: Copy
        ensures
            size == self.extent(),
    {
        self.view_size
    }
}

} // verus!
