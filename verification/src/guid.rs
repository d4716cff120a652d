//! A globally unique identifier held as plain integers.
//!
//! The native subsystem identifies layers, sublayers, condition fields and
//! filters by 128-bit GUIDs. This type carries the same information as four
//! integer fields: the classic `data1`/`data2`/`data3` parts and the final
//! eight bytes packed big-endian into `data4`.

use vstd::prelude::*;

verus! {

/// A 128-bit identifier, split as the native GUID structure splits it.
///
/// `data4` holds the trailing eight bytes with the first byte in the most
/// significant position, so two values are equal exactly when the native
/// GUIDs they stand for are equal.
#[derive(Clone, Copy, Debug, PartialEq, Eq, Structural)]
pub struct Guid {
    /// The first four bytes.
    pub data1: u32,
    /// The next two bytes.
    pub data2: u16,
    /// The next two bytes.
    pub data3: u16,
    /// The final eight bytes, packed big-endian.
    pub data4: u64,
}

impl Guid {
    /// Builds the identifier whose sixteen bytes are the big-endian bytes of
    /// `x`.
    pub fn from_u128(x: u128) -> (g: Guid)
        ensures
            g == Guid::spec_from_u128(x),
    {
        Guid {
            data1: (x >> 96) as u32,
            data2: (x >> 80) as u16,
            data3: (x >> 64) as u16,
            data4: x as u64,
        }
    }

    /// What [`Guid::from_u128`] returns.
    pub open spec fn spec_from_u128(x: u128) -> Guid {
        Guid {
            data1: (x >> 96) as u32,
            data2: (x >> 80) as u16,
            data3: (x >> 64) as u16,
            data4: x as u64,
        }
    }
}

} // verus!
