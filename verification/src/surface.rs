use vstd::prelude::*;

verus! {

/// The size, in pixels, that the canvas and the drawing surface are
/// currently configured with.
pub struct Viewport {
    pub width: u32,
    pub height: u32,
}

/// Whether a window of the given size calls for a reconfiguration of a
/// surface configured as `vp`.
pub open spec fn needs_resize(vp: Viewport, width: u32, height: u32) -> bool {
    vp.width != width || vp.height != height
}

impl Viewport {
    /// A viewport configured with the given size.
    pub fn new(width: u32, height: u32) -> (vp: Viewport)
        ensures
            vp.width == width,
            vp.height == height,
    {
        Viewport { width, height }
    }

    /// Compares the window's current size with the configured one.  When they
    /// differ the viewport takes the new size and `true` is returned: the
    /// canvas and the surface must then be reconfigured with it.  When they
    /// agree nothing changes and `false` is returned.
    pub fn update(&mut self, width: u32, height: u32) -> (changed: bool)
        ensures
            changed == needs_resize(*old(self), width, height),
            *final(self) == update_spec(*old(self), width, height),
    {
        if width != self.width || height != self.height {
            self.width = width;
            self.height = height;
            true
        } else {
            false
        }
    }
}

/// The viewport after the window was seen at the given size.
pub open spec fn update_spec(vp: Viewport, width: u32, height: u32) -> Viewport {
    Viewport { width, height }
}

/// Once the viewport has taken a window size, seeing the window at that size
/// again asks for no further reconfiguration.
pub proof fn lemma_update_settles(vp: Viewport, width: u32, height: u32)
    ensures
        !needs_resize(update_spec(vp, width, height), width, height),
{
}

/// Whether `i` is the position of the first sRGB format among those that the
/// surface supports, or, where none is sRGB, the position of the first one.
pub open spec fn is_preferred_format(srgb: Seq<bool>, i: int) -> bool {
    &&& 0 <= i < srgb.len()
    &&& if exists|j: int| 0 <= j < srgb.len() && srgb[j] {
        srgb[i] && forall|j: int| 0 <= j < i ==> !srgb[j]
    } else {
        i == 0
    }
}

/// Picks the surface format: given, for each format that the surface
/// supports, in the surface's order, whether it is an sRGB format, returns
/// the position of the first sRGB one, or 0 where there is none.
pub fn select_surface_format(srgb: &[bool]) -> (i: usize)
    requires
        srgb.len() > 0,
    ensures
        is_preferred_format(srgb@, i as int),
{
    let n = srgb.len();
    let mut k: usize = 0;
    while k < n
        invariant
            n == srgb.len(),
            k <= n,
            forall|j: int| 0 <= j < k ==> !srgb@[j],
        decreases n - k,
    {
        if srgb[k] {
            return k;
        }
        k = k + 1;
    }
    0
}

} // verus!
