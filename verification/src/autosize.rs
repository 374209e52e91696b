//! Fits rendered text into a pixel budget. The host hands in a measurement
//! function from font size to rendered width (both in fixed half-unit
//! steps, the resolution of the measurement system); the fitter measures
//! once at a large reference size, forms a linear guess — rendered width is
//! roughly proportional to font size — and then walks the size down one
//! step at a time until the width fits the target or the size reaches the
//! smallest readable floor.

use vstd::prelude::*;

verus! {

/// The reference font size the linear estimate is measured at.
pub const REF_SIZE: u32 = 200;

/// The smallest readable font size; the fitter never goes below it.
pub const MIN_SIZE: u32 = 4;

/// A measurement function is deterministic when it admits only one width
/// per font size. A pure measurement of fixed text has this; the fitter's
/// result is then itself a function of the target width alone.
pub open spec fn deterministic<F: Fn(u32) -> u32>(f: F) -> bool {
    forall|s: u32, w1: u32, w2: u32|
        call_ensures(f, (s,), w1) && call_ensures(f, (s,), w2) ==> w1 == w2
}

/// The initial font-size guess: scale the reference size by
/// `target / ref_width`, clamped into `[MIN_SIZE, u32::MAX]`. Text that
/// measures zero wide at the reference size fits any target at any size,
/// so the guess stays at the reference size.
pub open spec fn guess_spec(target: u32, ref_width: u32) -> u32 {
    if ref_width == 0 {
        REF_SIZE
    } else {
        let q = (target * REF_SIZE) / (ref_width as int);
        if q > u32::MAX {
            u32::MAX
        } else if q < MIN_SIZE {
            MIN_SIZE
        } else {
            q as u32
        }
    }
}

/// What the fitter guarantees of a result: `size` is readable, `width` is
/// the measured width at `size`, the pair either fits the target or sits at
/// the floor, `size` is no larger than the linear guess, and every size
/// between `size` and the guess measures wider than the target.
pub open spec fn fit_result<F: Fn(u32) -> u32>(f: F, target: u32, size: u32, width: u32) -> bool {
    &&& MIN_SIZE <= size
    &&& call_ensures(f, (size,), width)
    &&& width <= target || size == MIN_SIZE
    &&& exists|rw: u32| call_ensures(f, (REF_SIZE,), rw) && size <= guess_spec(target, rw)
    &&& forall|rw: u32, s: u32, w: u32|
        #[trigger] call_ensures(f, (REF_SIZE,), rw) && size < s <= guess_spec(target, rw)
            && #[trigger] call_ensures(f, (s,), w) ==> w > target
}

/// Find a font size whose rendered width fits `target`: measure at the
/// reference size, take the linear guess, then step the size down until
/// the width fits or the size reaches the floor. Returns the size and its
/// measured width. Whenever the floor size itself fits the target, so does
/// the returned width; a target below even the floor's width gets the
/// floor-size result as a best effort.
pub fn fit_font_size<F: Fn(u32) -> u32>(measure: &F, target: u32) -> (r: (u32, u32))
    requires
        forall|s: u32| call_requires(*measure, (s,)),
        deterministic(*measure),
    ensures
        fit_result(*measure, target, r.0, r.1),
        forall|w: u32| call_ensures(*measure, (MIN_SIZE,), w) && w <= target ==> r.1 <= target,
{
    let ref_width = measure(REF_SIZE);
    let g: u32 = if ref_width == 0 {
        REF_SIZE
    } else {
        proof {
            assert((target as u64) * (REF_SIZE as u64) <= 200 * (u32::MAX as u64))
                by (nonlinear_arith)
                requires
                    target <= u32::MAX,
                    REF_SIZE == 200,
            ;
        }
        let q: u64 = (target as u64) * (REF_SIZE as u64) / (ref_width as u64);
        if q > u32::MAX as u64 {
            u32::MAX
        } else if q < MIN_SIZE as u64 {
            MIN_SIZE
        } else {
            q as u32
        }
    };
    let mut size: u32 = g;
    let mut width = measure(size);
    while width > target && size > MIN_SIZE
        invariant
            MIN_SIZE <= size <= g,
            forall|s: u32| call_requires(*measure, (s,)),
            deterministic(*measure),
            call_ensures(*measure, (REF_SIZE,), ref_width),
            g == guess_spec(target, ref_width),
            call_ensures(*measure, (size,), width),
            forall|s: u32, w: u32|
                size < s <= g && call_ensures(*measure, (s,), w) ==> w > target,
        decreases size,
    {
        size = size - 1;
        width = measure(size);
    }
    proof {
        assert forall|rw: u32, s: u32, w: u32|
            #[trigger] call_ensures(*measure, (REF_SIZE,), rw) && size < s <= guess_spec(
                target,
                rw,
            ) && #[trigger] call_ensures(*measure, (s,), w) implies w > target by {
            assert(rw == ref_width);
        };
        assert forall|w: u32|
            call_ensures(*measure, (MIN_SIZE,), w) && w <= target implies width <= target by {
            if width > target {
                assert(size == MIN_SIZE);
                assert(call_ensures(*measure, (MIN_SIZE,), width));
            }
        };
    }
    (size, width)
}

/// Determinism of the whole fit: a deterministic measurement function
/// admits exactly one result, so two runs of the fitter on identical
/// inputs return identical output.
pub proof fn lemma_fit_deterministic<F: Fn(u32) -> u32>(
    f: F,
    target: u32,
    r1: (u32, u32),
    r2: (u32, u32),
)
    requires
        deterministic(f),
        fit_result(f, target, r1.0, r1.1),
        fit_result(f, target, r2.0, r2.1),
    ensures
        r1 == r2,
{
    let rw1 = choose|rw: u32| call_ensures(f, (REF_SIZE,), rw) && r1.0 <= guess_spec(target, rw);
    let rw2 = choose|rw: u32| call_ensures(f, (REF_SIZE,), rw) && r2.0 <= guess_spec(target, rw);
    assert(rw1 == rw2);
    if r1.0 < r2.0 {
        // Every size above r1.0 and at most the guess measures wider than
        // the target, so r2's width overflows and r2 sits at the floor —
        // yet the floor is not above r1.0.
        assert(r2.1 > target);
        assert(false);
    }
    if r2.0 < r1.0 {
        assert(r1.1 > target);
        assert(false);
    }
    assert(r1.1 == r2.1);
}

} // verus!
