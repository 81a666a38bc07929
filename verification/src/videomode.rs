//! Video-mode selection for exclusive fullscreen: picks the monitor mode
//! closest to a requested size, or the overall best mode.
//!
//! A video mode is its width, height and refresh rate in millihertz; the
//! caller queries the monitor and hands the list in. Selection follows the
//! backend's ordering: for a fitting mode, smaller width distance, then
//! smaller height distance, then higher refresh rate; for the best mode,
//! larger width, then larger height, then higher refresh rate. Among ties the
//! earliest listed mode wins.

use vstd::prelude::*;

verus! {

/// One video mode a monitor offers.
#[derive(Clone, Copy, Debug, PartialEq, Eq, Structural)]
pub struct VideoMode {
    pub width: u32,
    pub height: u32,
    pub refresh_millihertz: u32,
}

/// |a - b| as a mathematical integer.
pub open spec fn spec_abs_diff(a: u32, b: u32) -> int {
    if a >= b {
        a - b
    } else {
        b - a
    }
}

/// |a - b| on machine integers.
pub fn abs_diff(a: u32, b: u32) -> (r: u32)
    ensures
        r == spec_abs_diff(a, b),
{
    if a > b {
        a - b
    } else {
        b - a
    }
}

/// `a` fits a requested size strictly better than `b`: closer in width, then
/// closer in height, then higher refresh rate.
pub open spec fn fits_better(a: VideoMode, b: VideoMode, w: u32, h: u32) -> bool {
    let daw = spec_abs_diff(a.width, w);
    let dbw = spec_abs_diff(b.width, w);
    let dah = spec_abs_diff(a.height, h);
    let dbh = spec_abs_diff(b.height, h);
    ||| daw < dbw
    ||| (daw == dbw && dah < dbh)
    ||| (daw == dbw && dah == dbh && a.refresh_millihertz > b.refresh_millihertz)
}

/// `a` is a strictly better mode than `b` outright: wider, then taller, then
/// faster.
pub open spec fn is_better(a: VideoMode, b: VideoMode) -> bool {
    ||| a.width > b.width
    ||| (a.width == b.width && a.height > b.height)
    ||| (a.width == b.width && a.height == b.height && a.refresh_millihertz
        > b.refresh_millihertz)
}

/// Whether `a` fits the requested size strictly better than `b`.
pub fn fitting_better(a: &VideoMode, b: &VideoMode, w: u32, h: u32) -> (r: bool)
    ensures
        r == fits_better(*a, *b, w, h),
{
    let daw = abs_diff(a.width, w);
    let dbw = abs_diff(b.width, w);
    if daw != dbw {
        return daw < dbw;
    }
    let dah = abs_diff(a.height, h);
    let dbh = abs_diff(b.height, h);
    if dah != dbh {
        return dah < dbh;
    }
    a.refresh_millihertz > b.refresh_millihertz
}

/// Whether `a` is a strictly better mode than `b` outright.
pub fn better(a: &VideoMode, b: &VideoMode) -> (r: bool)
    ensures
        r == is_better(*a, *b),
{
    if a.width != b.width {
        return a.width > b.width;
    }
    if a.height != b.height {
        return a.height > b.height;
    }
    a.refresh_millihertz > b.refresh_millihertz
}

/// The mode closest to the requested size: no listed mode fits strictly
/// better, and every earlier listed mode fits strictly worse (so among ties
/// the earliest mode wins, as the backend's stable ordering does).
pub fn get_fitting_videomode(modes: &Vec<VideoMode>, width: u32, height: u32) -> (r: VideoMode)
    requires
        modes@.len() > 0,
    ensures
        exists|i: int|
            {
                &&& 0 <= i < modes@.len()
                &&& r == modes@[i]
                &&& forall|j: int| 0 <= j < i ==> #[trigger] fits_better(r, modes@[j], width, height)
            },
        forall|j: int|
            0 <= j < modes@.len() ==> !(#[trigger] fits_better(modes@[j], r, width, height)),
{
    let mut best: VideoMode = modes[0];
    let ghost mut bi: int = 0;
    let mut m: usize = 1;
    while m < modes.len()
        invariant
            modes@.len() > 0,
            1 <= m <= modes@.len(),
            0 <= bi < m,
            best == modes@[bi],
            forall|j: int| 0 <= j < bi ==> #[trigger] fits_better(best, modes@[j], width, height),
            forall|j: int| 0 <= j < m ==> !(#[trigger] fits_better(modes@[j], best, width, height)),
        decreases modes@.len() - m,
    {
        if fitting_better(&modes[m], &best, width, height) {
            proof {
                assert forall|j: int| 0 <= j < m implies #[trigger] fits_better(
                    modes@[m as int],
                    modes@[j],
                    width,
                    height,
                ) by {
                    assert(!fits_better(modes@[j], best, width, height));
                }
                assert forall|j: int| 0 <= j < m + 1 implies !(#[trigger] fits_better(
                    modes@[j],
                    modes@[m as int],
                    width,
                    height,
                )) by {
                    if j < m && fits_better(modes@[j], modes@[m as int], width, height) {
                        assert(fits_better(modes@[j], best, width, height));
                    }
                }
            }
            best = modes[m];
            proof {
                bi = m as int;
            }
        }
        m = m + 1;
    }
    best
}

/// The best mode outright: no listed mode is strictly better, and every
/// earlier listed mode is strictly worse (among ties the earliest mode wins).
pub fn get_best_videomode(modes: &Vec<VideoMode>) -> (r: VideoMode)
    requires
        modes@.len() > 0,
    ensures
        exists|i: int|
            {
                &&& 0 <= i < modes@.len()
                &&& r == modes@[i]
                &&& forall|j: int| 0 <= j < i ==> #[trigger] is_better(r, modes@[j])
            },
        forall|j: int| 0 <= j < modes@.len() ==> !(#[trigger] is_better(modes@[j], r)),
{
    let mut best: VideoMode = modes[0];
    let ghost mut bi: int = 0;
    let mut m: usize = 1;
    while m < modes.len()
        invariant
            modes@.len() > 0,
            1 <= m <= modes@.len(),
            0 <= bi < m,
            best == modes@[bi],
            forall|j: int| 0 <= j < bi ==> #[trigger] is_better(best, modes@[j]),
            forall|j: int| 0 <= j < m ==> !(#[trigger] is_better(modes@[j], best)),
        decreases modes@.len() - m,
    {
        if better(&modes[m], &best) {
            proof {
                assert forall|j: int| 0 <= j < m implies #[trigger] is_better(
                    modes@[m as int],
                    modes@[j],
                ) by {
                    assert(!is_better(modes@[j], best));
                }
                assert forall|j: int| 0 <= j < m + 1 implies !(#[trigger] is_better(
                    modes@[j],
                    modes@[m as int],
                )) by {
                    if j < m && is_better(modes@[j], modes@[m as int]) {
                        assert(is_better(modes@[j], best));
                    }
                }
            }
            best = modes[m];
            proof {
                bi = m as int;
            }
        }
        m = m + 1;
    }
    best
}

} // verus!
