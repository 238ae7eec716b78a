//! The decisions behind the C interface: error codes and choosing a view type by name.
use vstd::prelude::*;

use crate::text::same_text;

verus! {

/// Error codes reported across the C interface.
#[derive(Copy, Clone, Debug, PartialEq, Eq, Structural)]
pub enum OpusErr {
    EUNKNOWN,
    EAMBIGUOUSVIEWNAME,
    ENOVIEWWITHNAME,
    EINVALIDARG,
}

impl OpusErr {
    /// The code of the error: 1, 2, 3 and 4 in declaration order.
    pub open spec fn spec_code(self) -> int {
        match self {
            OpusErr::EUNKNOWN => 1,
            OpusErr::EAMBIGUOUSVIEWNAME => 2,
            OpusErr::ENOVIEWWITHNAME => 3,
            OpusErr::EINVALIDARG => 4,
        }
    }
}

/// The value a C entry point returns for an error: its code, negated.
pub fn ret(err: OpusErr) -> (r: isize)
    ensures
        r == -err.spec_code(),
{
    match err {
        OpusErr::EUNKNOWN => -1,
        OpusErr::EAMBIGUOUSVIEWNAME => -2,
        OpusErr::ENOVIEWWITHNAME => -3,
        OpusErr::EINVALIDARG => -4,
    }
}

/// The identifiers of the view types named `name`, in order.
pub open spec fn ids_named(views: Seq<(usize, Seq<char>)>, name: Seq<char>) -> Seq<usize>
    decreases views.len(),
{
    if views.len() == 0 {
        Seq::empty()
    } else {
        let rest = ids_named(views.drop_last(), name);
        if views.last().1 == name {
            rest.push(views.last().0)
        } else {
            rest
        }
    }
}

/// The view type that a request by name selects: the only one with that
/// name, or `ENOVIEWWITHNAME` when there is none and `EAMBIGUOUSVIEWNAME`
/// when there are several.
pub open spec fn spec_resolve_view_name(views: Seq<(usize, Seq<char>)>, name: Seq<char>) -> Result<
    usize,
    OpusErr,
> {
    let ids = ids_named(views, name);
    if ids.len() == 0 {
        Err(OpusErr::ENOVIEWWITHNAME)
    } else if ids.len() > 1 {
        Err(OpusErr::EAMBIGUOUSVIEWNAME)
    } else {
        Ok(ids[0])
    }
}

/// Picks the view type named `name` among `views` (identifier and name of
/// each view type).
pub fn resolve_view_name(views: &Vec<(usize, String)>, name: &str) -> (r: Result<usize, OpusErr>)
    ensures
        r == spec_resolve_view_name(views@.map_values(|v: (usize, String)| (v.0, v.1@)), name@),
{
    let ghost input = views@.map_values(|v: (usize, String)| (v.0, v.1@));
    let mut found: Vec<usize> = Vec::new();
    let mut i: usize = 0;
    while i < views.len()
        invariant
            0 <= i <= views.len(),
            input == views@.map_values(|v: (usize, String)| (v.0, v.1@)),
            found@ == ids_named(input.subrange(0, i as int), name@),
        decreases views.len() - i,
    {
        assert(input.subrange(0, i + 1).drop_last() =~= input.subrange(0, i as int));
        if same_text(views[i].1.as_str(), name) {
            found.push(views[i].0);
        }
        i = i + 1;
    }
    assert(input.subrange(0, i as int) =~= input);
    if found.len() == 0 {
        Err(OpusErr::ENOVIEWWITHNAME)
    } else if found.len() > 1 {
        Err(OpusErr::EAMBIGUOUSVIEWNAME)
    } else {
        Ok(found[0])
    }
}

} // verus!
