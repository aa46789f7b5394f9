//! The motion kind of a rigid body, and the selector widget's commit rule.

use vstd::prelude::*;

verus! {

/// How many motion kinds there are, and so how many entries the selector shows.
pub const BODY_STATUS_COUNT: usize = 3;

/// The motion kind of a rigid body: driven by the simulation, fixed in place,
/// or moved directly by the application.
#[derive(Clone, Copy, Debug, PartialEq, Eq, Structural)]
pub enum BodyStatus {
    Dynamic,
    Static,
    Kinematic,
}

impl BodyStatus {
    /// Position of this kind in the fixed order the selector lists them in.
    pub open spec fn index_spec(self) -> int {
        match self {
            BodyStatus::Dynamic => 0,
            BodyStatus::Static => 1,
            BodyStatus::Kinematic => 2,
        }
    }

    /// The kind listed at position `i`, if any.
    pub open spec fn from_index_spec(i: int) -> Option<BodyStatus> {
        if i == 0 {
            Some(BodyStatus::Dynamic)
        } else if i == 1 {
            Some(BodyStatus::Static)
        } else if i == 2 {
            Some(BodyStatus::Kinematic)
        } else {
            None
        }
    }

    /// The text the selector shows for this kind.
    pub open spec fn label_spec(self) -> Seq<char> {
        match self {
            BodyStatus::Dynamic => "Dynamic"@,
            BodyStatus::Static => "Static"@,
            BodyStatus::Kinematic => "Kinematic"@,
        }
    }

    pub fn index(&self) -> (r: usize)
        ensures
            r == self.index_spec(),
            r < BODY_STATUS_COUNT,
    {
        match self {
            BodyStatus::Dynamic => 0,
            BodyStatus::Static => 1,
            BodyStatus::Kinematic => 2,
        }
    }

    pub fn from_index(i: usize) -> (r: Option<BodyStatus>)
        ensures
            r == Self::from_index_spec(i as int),
    {
        if i == 0 {
            Some(BodyStatus::Dynamic)
        } else if i == 1 {
            Some(BodyStatus::Static)
        } else if i == 2 {
            Some(BodyStatus::Kinematic)
        } else {
            None
        }
    }

    pub fn label(&self) -> (r: &'static str)
        ensures
            r@ == self.label_spec(),
    {
        match self {
            BodyStatus::Dynamic => "Dynamic",
            BodyStatus::Static => "Static",
            BodyStatus::Kinematic => "Kinematic",
        }
    }

    /// The selector's commit rule: the chosen kind replaces the current one,
    /// and the edit counts as a change exactly when the chosen kind differs.
    pub fn select(self, chosen: BodyStatus) -> (r: (BodyStatus, bool))
        ensures
            r.0 == chosen,
            r.1 == (chosen != self),
    {
        (chosen, chosen != self)
    }
}

/// Every kind sits at the position it reports: looking a kind's own index back
/// up yields that kind, so the selector can never lose the current value.
pub proof fn lemma_index_round_trip(s: BodyStatus)
    ensures
        BodyStatus::from_index_spec(s.index_spec()) == Some(s),
{
}

/// Every position below `BODY_STATUS_COUNT` names a kind, and that kind
/// reports the same position.
pub proof fn lemma_from_index_total(i: int)
    requires
        0 <= i < BODY_STATUS_COUNT,
    ensures
        BodyStatus::from_index_spec(i) matches Some(s) && s.index_spec() == i,
{
}

} // verus!
