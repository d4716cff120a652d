//! The action a filter takes when its conditions match.

use vstd::prelude::*;

verus! {

/// Specifies the action to take when a filter matches network traffic.
///
/// Each variant stands for one value of the native action-type enumeration;
/// [`ActionType::raw`] yields that value.
#[derive(Clone, Copy, Debug, PartialEq, Eq, Structural)]
pub enum ActionType {
    /// Block the network traffic that matches the filter.
    Block,
    /// Allow the network traffic that matches the filter to proceed.
    Permit,
}

impl ActionType {
    /// The native action-type value this variant stands for.
    pub open spec fn spec_raw(self) -> u32 {
        match self {
            ActionType::Block => 0x1001,
            ActionType::Permit => 0x1002,
        }
    }

    /// Returns the native action-type value this variant stands for.
    pub fn raw(self) -> (r: u32)
        ensures
            r == self.spec_raw(),
    {
        match self {
            ActionType::Block => 0x1001,
            ActionType::Permit => 0x1002,
        }
    }
}

} // verus!
