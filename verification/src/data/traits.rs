use vstd::prelude::*;

use super::node_types::EnumNode;
use super::nodeid::NodeID;
use super::value::{Value, ValueV, labels_view, props_view};

verus! {

/// Something stored in the database under a node identifier.
pub trait HasID {
    /// The identifier, in specifications.
    spec fn spec_db_id(&self) -> NodeID;

    /// The identifier.
    fn get_db_id(&self) -> (r: NodeID)
        ensures
            r == self.spec_db_id(),
    ;
}

/// Something that carries the UUID of the traced object it stands for.
pub trait HasUUID {
    /// The UUID, in specifications.
    spec fn spec_uuid(&self) -> u128;

    /// The UUID.
    fn get_uuid(&self) -> (r: u128)
        ensures
            r == self.spec_uuid(),
    ;
}

/// A node type that can be wrapped into an [`EnumNode`].
pub trait Enumerable: Sized {
    /// Wraps the node.
    fn enumerate(self) -> EnumNode;
}

/// A node type that can be seen inside an [`EnumNode`] of the matching variant.
pub trait Denumerate: Sized {
    /// Whether `val` is the variant that holds this type.
    spec fn holds(val: &EnumNode) -> bool;

    /// The node inside `val`, in specifications.
    spec fn inner(val: EnumNode) -> Self;

    /// The node wrapped in the variant that holds this type.
    spec fn wrap(n: Self) -> EnumNode;

    /// The node inside `val`, which must hold this type.
    fn denumerate(val: &EnumNode) -> (r: &Self)
        requires
            Self::holds(val),
        ensures
            *r == Self::inner(*val),
    ;

    /// The node inside `val`, for changing in place; `val` must hold this type.
    fn denumerate_mut(val: &mut EnumNode) -> (r: &mut Self)
        requires
            Self::holds(old(val)),
        ensures
            *r == Self::inner(*old(val)),
            *final(val) == Self::wrap(*final(r)),
    ;
}

/// A node type built from an identifier, a UUID and optional initial data.
pub trait Generable: HasID + HasUUID + Sized {
    /// The initial data of a new node.
    type Init;

    /// A new node; without initial data the type's defaults are used.
    fn new(id: NodeID, uuid: u128, init: Option<Self::Init>) -> (r: Self)
        ensures
            r.spec_db_id() == id,
            r.spec_uuid() == uuid,
    ;
}

/// A node that can be written to the database as labels and properties.
pub trait ToDB: HasID {
    /// The labels, in specifications.
    spec fn spec_labels(&self) -> Seq<Seq<char>>;

    /// The properties (without `db_id`), in specifications.
    spec fn spec_props(&self) -> Seq<(Seq<char>, ValueV)>;

    /// The node's labels.
    fn get_labels(&self) -> (r: Vec<&'static str>)
        ensures
            labels_view(r@) == self.spec_labels(),
    ;

    /// The node's properties, without `db_id`.
    fn get_props(&self) -> (r: Vec<(String, Value)>)
        ensures
            props_view(r@) == self.spec_props(),
    ;
}

} // verus!
