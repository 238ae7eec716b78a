use vstd::prelude::*;

verus! {

/// A view that reads the stream of changes and writes nothing.
pub struct CypherFileView {}

impl CypherFileView {
    /// A new view.
    pub fn new() -> (r: Box<Self>) {
        Box::new(CypherFileView {})
    }
}

} // verus!
