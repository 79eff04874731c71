//! Flowing-lamp pattern over three indicator lamps.
//!
//! The three lamp bits form a cube of eight states.  `flow_up` and
//! `flow_down` walk that cube as mutually inverse permutations, with the
//! all-low and all-high corners as fixed points.

use vstd::prelude::*;

verus! {

/// The joint state of the three lamp lines, named low/high per line.
#[derive(Debug, Clone, Copy, PartialEq, Eq, Structural)]
pub enum LedState {
    LLL,
    LLH,
    LHL,
    LHH,
    HLL,
    HLH,
    HHL,
    HHH,
}

impl LedState {
    /// Successor under the upward flow walk.
    pub open spec fn spec_flow_up(self) -> LedState {
        match self {
            LedState::LLL => LedState::LLL,
            LedState::LLH => LedState::LHL,
            LedState::LHL => LedState::HLL,
            LedState::LHH => LedState::HHL,
            LedState::HLL => LedState::LLH,
            LedState::HLH => LedState::LHH,
            LedState::HHL => LedState::HLH,
            LedState::HHH => LedState::HHH,
        }
    }

    /// Successor under the downward flow walk.
    pub open spec fn spec_flow_down(self) -> LedState {
        match self {
            LedState::LLL => LedState::LLL,
            LedState::LLH => LedState::HLL,
            LedState::LHL => LedState::LLH,
            LedState::LHH => LedState::HLH,
            LedState::HLL => LedState::LHL,
            LedState::HLH => LedState::HHL,
            LedState::HHL => LedState::LHH,
            LedState::HHH => LedState::HHH,
        }
    }

    /// The level each lamp line takes in this state, as
    /// (first, second, third); `true` is high.
    pub open spec fn spec_levels(self) -> (bool, bool, bool) {
        match self {
            LedState::LLL => (false, false, false),
            LedState::LLH => (false, false, true),
            LedState::LHL => (false, true, false),
            LedState::LHH => (false, true, true),
            LedState::HLL => (true, false, false),
            LedState::HLH => (true, false, true),
            LedState::HHL => (true, true, false),
            LedState::HHH => (true, true, true),
        }
    }

    /// Advance one step along the upward flow walk.
    pub fn flow_up(self) -> (r: LedState)
        ensures
            r == self.spec_flow_up(),
    {
        match self {
            LedState::LLL => LedState::LLL,
            LedState::LLH => LedState::LHL,
            LedState::LHL => LedState::HLL,
            LedState::LHH => LedState::HHL,
            LedState::HLL => LedState::LLH,
            LedState::HLH => LedState::LHH,
            LedState::HHL => LedState::HLH,
            LedState::HHH => LedState::HHH,
        }
    }

    /// Advance one step along the downward flow walk.
    pub fn flow_down(self) -> (r: LedState)
        ensures
            r == self.spec_flow_down(),
    {
        match self {
            LedState::LLL => LedState::LLL,
            LedState::LLH => LedState::HLL,
            LedState::LHL => LedState::LLH,
            LedState::LHH => LedState::HLH,
            LedState::HLL => LedState::LHL,
            LedState::HLH => LedState::HHL,
            LedState::HHL => LedState::LHH,
            LedState::HHH => LedState::HHH,
        }
    }

    /// The levels to drive on the three lamp lines for this state.
    pub fn levels(self) -> (r: (bool, bool, bool))
        ensures
            r == self.spec_levels(),
    {
        match self {
            LedState::LLL => (false, false, false),
            LedState::LLH => (false, false, true),
            LedState::LHL => (false, true, false),
            LedState::LHH => (false, true, true),
            LedState::HLL => (true, false, false),
            LedState::HLH => (true, false, true),
            LedState::HHL => (true, true, false),
            LedState::HHH => (true, true, true),
        }
    }
}

/// The two flow walks are mutually inverse on every state, and the two
/// all-identical-bit corners are fixed points of both.
pub proof fn lemma_flow_round_trip(s: LedState)
    ensures
        s.spec_flow_up().spec_flow_down() == s,
        s.spec_flow_down().spec_flow_up() == s,
        LedState::LLL.spec_flow_up() == LedState::LLL,
        LedState::LLL.spec_flow_down() == LedState::LLL,
        LedState::HHH.spec_flow_up() == LedState::HHH,
        LedState::HHH.spec_flow_down() == LedState::HHH,
{
}

} // verus!
