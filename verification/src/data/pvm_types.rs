//! The kinds of nodes and relationships of the provenance model.
use vstd::prelude::*;

verus! {

/// The provenance role of a data node.
#[derive(Clone, Copy, Debug, PartialEq, Eq, Hash, Structural)]
pub enum PVMDataType {
    Actor,
    Store,
    StoreCont,
    EditSession,
    Conduit,
    Object,
}

/// The operation an information-flow relationship records.
#[derive(Clone, Copy, Debug, PartialEq, Eq, Hash, Structural)]
pub enum PVMOps {
    Sink,
    Source,
    Connect,
    Version,
    Unknown,
}

/// The name an operation is stored under.
pub fn pvm_op_name(op: PVMOps) -> (r: &'static str)
    ensures
        r@ == (match op {
            PVMOps::Sink => "Sink"@,
            PVMOps::Source => "Source"@,
            PVMOps::Connect => "Connect"@,
            PVMOps::Version => "Version"@,
            PVMOps::Unknown => "Unknown"@,
        }),
{
    match op {
        PVMOps::Sink => "Sink",
        PVMOps::Source => "Source",
        PVMOps::Connect => "Connect",
        PVMOps::Version => "Version",
        PVMOps::Unknown => "Unknown",
    }
}

/// What the CSV export needs to know of a node: its kind and, for data and
/// context nodes, the name of its concrete type.
pub enum CsvNodeKind {
    Data { pvm_ty: PVMDataType, ty_name: String },
    Ctx { ty_name: String },
    NamePath,
    NameNet,
    Schema,
}

/// The kinds of relationships.
#[derive(Clone, Copy, Debug, PartialEq, Eq, Structural)]
pub enum CsvRelKind {
    Inf,
    Named,
}

} // verus!
