//! Per-frame decisions of the renderer: what to do with the state of the
//! acquired surface texture, the surface size after a resize, and how many
//! HUD vertices fit the HUD buffer.
use vstd::prelude::*;

verus! {

/// State in which acquiring the next surface texture left the surface.
#[derive(Clone, Copy, PartialEq, Eq, Debug, Structural)]
pub enum SurfaceStatus {
    /// A texture was acquired.
    Success,
    /// A texture was acquired, but the surface no longer matches it well.
    Suboptimal,
    /// Acquiring timed out.
    Timeout,
    /// The window is occluded or minimized.
    Occluded,
    /// The surface changed and must be configured again.
    Outdated,
    /// The surface was lost and must be configured again.
    Lost,
    /// Acquiring raised a validation error.
    Validation,
}

/// What the renderer does with a frame.
#[derive(Clone, Copy, PartialEq, Eq, Debug, Structural)]
pub struct FramePlan {
    /// Configure the surface again (before drawing, if it draws).
    pub reconfigure: bool,
    /// Draw and present this frame.
    pub draw: bool,
    /// Report a surface validation error.
    pub report_error: bool,
    /// The caller should ask for the next frame right away; it should not
    /// while the window is occluded or minimized.
    pub redraw: bool,
}

/// The plan for a frame whose texture acquisition ended in `status`: draw
/// with any acquired texture, configure the surface again when it is
/// suboptimal, outdated or lost, report a validation error, and ask for the
/// next frame right away unless the window is occluded.
pub fn frame_plan(status: SurfaceStatus) -> (p: FramePlan)
    ensures
        p.draw <==> (status is Success || status is Suboptimal),
        p.reconfigure <==> (status is Suboptimal || status is Outdated || status is Lost),
        p.report_error <==> status is Validation,
        p.redraw <==> !(status is Occluded),
{
    match status {
        SurfaceStatus::Success => FramePlan {
            reconfigure: false,
            draw: true,
            report_error: false,
            redraw: true,
        },
        SurfaceStatus::Suboptimal => FramePlan {
            reconfigure: true,
            draw: true,
            report_error: false,
            redraw: true,
        },
        SurfaceStatus::Timeout => FramePlan {
            reconfigure: false,
            draw: false,
            report_error: false,
            redraw: true,
        },
        SurfaceStatus::Occluded => FramePlan {
            reconfigure: false,
            draw: false,
            report_error: false,
            redraw: false,
        },
        SurfaceStatus::Outdated | SurfaceStatus::Lost => FramePlan {
            reconfigure: true,
            draw: false,
            report_error: false,
            redraw: true,
        },
        SurfaceStatus::Validation => FramePlan {
            reconfigure: false,
            draw: false,
            report_error: true,
            redraw: true,
        },
    }
}

/// Index of the surface format to use among formats whose sRGB flags are
/// `srgb`: the first sRGB format, else the first format; none when there is
/// no format at all.
pub fn pick_surface_format(srgb: &Vec<bool>) -> (r: Option<usize>)
    ensures
        r is None <==> srgb@.len() == 0,
        r matches Some(i) ==> i < srgb@.len(),
        r matches Some(i) ==> (srgb@[i as int] && forall|k: int| 0 <= k < i ==> !srgb@[k]) || (i
            == 0 && forall|k: int| 0 <= k < srgb@.len() ==> !srgb@[k]),
{
    if srgb.len() == 0 {
        return None;
    }
    let mut i: usize = 0;
    while i < srgb.len()
        invariant
            i <= srgb@.len(),
            forall|k: int| 0 <= k < i ==> !srgb@[k],
        decreases srgb@.len() - i,
    {
        if srgb[i] {
            return Some(i);
        }
        i = i + 1;
    }
    Some(0)
}

/// The surface size to configure after the window was resized to `width`
/// by `height`: none when either side is zero (a minimized window), else
/// the new size.
pub fn resize_extent(width: u32, height: u32) -> (r: Option<(u32, u32)>)
    ensures
        r is None <==> (width == 0 || height == 0),
        r is Some ==> r->0 == (width, height),
{
    if width == 0 || height == 0 {
        None
    } else {
        Some((width, height))
    }
}

/// Surface and depth-buffer size for a window of `width` by `height`: each
/// side at least one pixel.
pub fn surface_extent(width: u32, height: u32) -> (r: (u32, u32))
    ensures
        r.0 == (if width >= 1 {
            width
        } else {
            1
        }),
        r.1 == (if height >= 1 {
            height
        } else {
            1
        }),
{
    let w = if width >= 1 {
        width
    } else {
        1
    };
    let h = if height >= 1 {
        height
    } else {
        1
    };
    (w, h)
}

/// Number of HUD vertices that are uploaded and drawn when `len` were built
/// and the HUD buffer holds `capacity`: all of them if they fit, else the
/// first `capacity`.
pub fn hud_vertex_count(len: usize, capacity: u64) -> (n: usize)
    ensures
        n == (if len > capacity {
            capacity as int
        } else {
            len as int
        }),
{
    if (len as u64) > capacity {
        capacity as usize
    } else {
        len
    }
}

} // verus!
