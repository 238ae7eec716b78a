use vstd::prelude::*;

use crate::text::{decimal_int, fmt_i64};

verus! {

/// The database identifier of a node or relationship.
#[derive(Copy, Clone, Debug, PartialEq, Eq, Hash, Structural)]
pub struct ID(pub i64);

impl ID {
    /// Wraps a raw identifier.
    pub fn new(val: i64) -> (r: ID)
        ensures
            r.0 == val,
    {
        ID(val)
    }

    /// The raw identifier.
    pub fn inner(self) -> (r: i64)
        ensures
            r == self.0,
    {
        self.0
    }

    /// The identifier in decimal.
    pub fn to_string(&self) -> (s: String)
        ensures
            s@ == decimal_int(self.0 as int),
    {
        fmt_i64(self.0)
    }
}

} // verus!
