//! The user-adjustable display scale factor.
//!
//! The overlay's demo panel has two buttons that move the scale factor by one
//! tenth per click, clamped to the closed interval [0.3, 3.0]. The factor is
//! held in tenths of a unit, so the interval is [3, 30] tenths and one click
//! moves it by one tenth; the host turns tenths into the fractional
//! pixels-per-point value the overlay engine wants.

use vstd::prelude::*;

verus! {

/// Smallest allowed scale factor, in tenths (0.3).
pub const MIN_TENTHS: u32 = 3;

/// Largest allowed scale factor, in tenths (3.0).
pub const MAX_TENTHS: u32 = 30;

/// Initial scale factor, in tenths (1.0).
pub const INITIAL_TENTHS: u32 = 10;

/// One click of either scale button.
#[derive(Clone, Copy, PartialEq, Eq, Structural, Debug)]
pub enum ScaleOp {
    /// The "+" button: one tenth up, clamped to `MAX_TENTHS`.
    Increase,
    /// The "-" button: one tenth down, clamped to `MIN_TENTHS`.
    Decrease,
}

/// What one click does to a scale factor of `t` tenths.
pub open spec fn apply_op(t: int, op: ScaleOp) -> int {
    match op {
        ScaleOp::Increase => if t + 1 > MAX_TENTHS { MAX_TENTHS as int } else { t + 1 },
        ScaleOp::Decrease => if t - 1 < MIN_TENTHS { MIN_TENTHS as int } else { t - 1 },
    }
}

/// What a whole sequence of clicks does to a scale factor of `t` tenths,
/// applied left to right.
pub open spec fn apply_ops(t: int, ops: Seq<ScaleOp>) -> int
    decreases ops.len(),
{
    if ops.len() == 0 {
        t
    } else {
        apply_ops(apply_op(t, ops[0]), ops.subrange(1, ops.len() as int))
    }
}

/// The scale factor itself, in tenths of a unit.
pub struct ScaleFactor {
    tenths: u32,
}

impl ScaleFactor {
    /// The factor in tenths, as a mathematical integer.
    pub closed spec fn spec_tenths(self) -> int {
        self.tenths as int
    }

    /// The factor always lies in [`MIN_TENTHS`, `MAX_TENTHS`].
    pub open spec fn wf(self) -> bool {
        MIN_TENTHS <= self.spec_tenths() <= MAX_TENTHS
    }

    /// A fresh scale factor of 1.0 (ten tenths).
    pub fn new() -> (s: Self)
        ensures
            s.spec_tenths() == INITIAL_TENTHS,
            s.wf(),
    {
        ScaleFactor { tenths: INITIAL_TENTHS }
    }

    /// The factor in tenths, for the host to scale by.
    pub fn tenths(&self) -> (t: u32)
        ensures
            t as int == self.spec_tenths(),
    {
        self.tenths
    }

    /// One click of the "+" button: up a tenth, clamped above.
    pub fn increase(&mut self)
        requires
            old(self).wf(),
        ensures
            final(self).wf(),
            final(self).spec_tenths() == apply_op(old(self).spec_tenths(), ScaleOp::Increase),
    {
        if self.tenths + 1 > MAX_TENTHS {
            self.tenths = MAX_TENTHS;
        } else {
            self.tenths = self.tenths + 1;
        }
    }

    /// One click of the "-" button: down a tenth, clamped below.
    pub fn decrease(&mut self)
        requires
            old(self).wf(),
        ensures
            final(self).wf(),
            final(self).spec_tenths() == apply_op(old(self).spec_tenths(), ScaleOp::Decrease),
    {
        if self.tenths - 1 < MIN_TENTHS {
            self.tenths = MIN_TENTHS;
        } else {
            self.tenths = self.tenths - 1;
        }
    }
}

/// However many clicks are applied, in whatever order, a scale factor that
/// starts inside [`MIN_TENTHS`, `MAX_TENTHS`] stays inside it.
pub proof fn lemma_scale_ops_bounded(t: int, ops: Seq<ScaleOp>)
    requires
        MIN_TENTHS <= t <= MAX_TENTHS,
    ensures
        MIN_TENTHS <= apply_ops(t, ops) <= MAX_TENTHS,
    decreases ops.len(),
{
    if ops.len() > 0 {
        lemma_scale_ops_bounded(apply_op(t, ops[0]), ops.subrange(1, ops.len() as int));
    }
}

/// Clamping is idempotent at the boundaries: at the top a further "+" click
/// changes nothing, and at the bottom a further "-" click changes nothing.
pub proof fn lemma_clamp_idempotent_at_bounds()
    ensures
        apply_op(MAX_TENTHS as int, ScaleOp::Increase) == MAX_TENTHS as int,
        apply_op(MIN_TENTHS as int, ScaleOp::Decrease) == MIN_TENTHS as int,
{
}

} // verus!
