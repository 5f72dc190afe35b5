//! Depth hints: the bias that each drawable of a frame receives so that
//! depth testing agrees with submission order.

use vstd::prelude::*;

verus! {

/// The hint for one drawable of a frame: the exact fraction
/// `1 - (index + 1) / total`, kept as the drawable's position and the number
/// of drawables.
#[derive(Debug, Clone, Copy, PartialEq, Eq, Structural)]
pub struct DepthHint {
    pub index: usize,
    pub total: usize,
}

impl DepthHint {
    /// A hint names a drawable of its frame.
    pub open spec fn wf(self) -> bool {
        self.index < self.total
    }

    /// Numerator of the hint over [`DepthHint::denominator_spec`]:
    /// `total - (index + 1)`.
    pub open spec fn numerator_spec(self) -> int {
        self.total - (self.index + 1)
    }

    /// Denominator of the hint: the number of drawables.
    pub open spec fn denominator_spec(self) -> int {
        self.total as int
    }

    /// The hint for the drawable at `index` among `total`.
    pub open spec fn at(index: int, total: int) -> DepthHint {
        DepthHint { index: index as usize, total: total as usize }
    }

    /// The hint for the drawable at `index` among `total`, or nothing where
    /// there is no such drawable.
    pub fn new(index: usize, total: usize) -> (hint: Option<DepthHint>)
        ensures
            hint == if index < total {
                Some(Self::at(index as int, total as int))
            } else {
                None
            },
    {
        if index < total {
            Some(DepthHint { index, total })
        } else {
            None
        }
    }

    pub fn numerator(&self) -> (numerator: usize)
        requires
            self.wf(),
        ensures
            numerator == self.numerator_spec(),
    {
        self.total - 1 - self.index
    }

    pub fn denominator(&self) -> (denominator: usize)
        ensures
            denominator == self.denominator_spec(),
    {
        self.total
    }
}

/// The hints of a frame with `total` drawables, in submission order.
pub open spec fn depth_hint_seq(total: int) -> Seq<DepthHint> {
    Seq::new(total as nat, |index: int| DepthHint::at(index, total))
}

/// Computes the hints of a frame with `total` drawables.
pub fn depth_hints(total: usize) -> (hints: Vec<DepthHint>)
    ensures
        hints@ == depth_hint_seq(total as int),
{
    let mut hints: Vec<DepthHint> = Vec::new();
    let mut index: usize = 0;
    while index < total
        invariant
            index <= total,
            hints@ == Seq::new(index as nat, |i: int| DepthHint::at(i, total as int)),
        decreases total - index,
    {
        hints.push(DepthHint { index, total });
        index = index + 1;
        assert(hints@ =~= Seq::new(index as nat, |i: int| DepthHint::at(i, total as int)));
    }
    hints
}

/// Every hint of a frame is the fraction `1 - (index + 1) / total`: its
/// numerator and the drawable's one-based position add up to the
/// denominator, which is the number of drawables.
pub proof fn lemma_hint_value(index: int, total: int)
    requires
        0 <= index < total <= usize::MAX,
    ensures
        depth_hint_seq(total)[index].wf(),
        depth_hint_seq(total)[index].denominator_spec() == total,
        depth_hint_seq(total)[index].numerator_spec() + (index + 1) == total,
{
}

/// A hint lies in the half-open unit interval: its numerator is at least zero
/// and below its denominator.
pub proof fn lemma_hint_in_unit_interval(hint: DepthHint)
    requires
        hint.wf(),
    ensures
        0 <= hint.numerator_spec() < hint.denominator_spec(),
{
}

/// Hints strictly decrease in submission order: of two drawables of one
/// frame, the earlier one has the larger hint.
pub proof fn lemma_hints_strictly_decrease(earlier: int, later: int, total: int)
    requires
        0 <= earlier < later < total <= usize::MAX,
    ensures
        depth_hint_seq(total)[earlier].denominator_spec() == depth_hint_seq(
            total,
        )[later].denominator_spec(),
        depth_hint_seq(total)[earlier].numerator_spec() > depth_hint_seq(
            total,
        )[later].numerator_spec(),
{
}

/// The last drawable of a frame receives the hint zero.
pub proof fn lemma_last_hint_is_zero(total: int)
    requires
        0 < total <= usize::MAX,
    ensures
        depth_hint_seq(total)[total - 1].numerator_spec() == 0,
{
}

} // verus!
