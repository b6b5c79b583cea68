use vstd::prelude::*;

use uuid::Uuid;

verus! {

#[verifier::external_type_specification]
#[verifier::external_body]
pub struct ExUuid(Uuid);

/// Relies on uuid::Uuid being `Copy`: its derived `clone` returns the value
/// itself.
pub assume_specification[ <Uuid as Clone>::clone ](u: &Uuid) -> (r: Uuid)
    ensures
        r == *u,
;

/// The primary key of a returned record: a string, an integer, or a UUID.
#[derive(Debug, PartialEq, Eq, Hash, Clone)]
pub enum Id {
    String(String),
    Int(usize),
    UUID(Uuid),
}

impl From<usize> for Id {
    fn from(u: usize) -> (r: Id) {
        Id::Int(u)
    }
}

impl vstd::std_specs::convert::FromSpecImpl<usize> for Id {
    open spec fn obeys_from_spec() -> bool {
        true
    }

    open spec fn from_spec(u: usize) -> Id {
        Id::Int(u)
    }
}

impl From<u64> for Id {
    fn from(u: u64) -> (r: Id) {
        #[verifier::truncate]
        let n = u as usize;
        Id::Int(n)
    }
}

impl vstd::std_specs::convert::FromSpecImpl<u64> for Id {
    open spec fn obeys_from_spec() -> bool {
        true
    }

    open spec fn from_spec(u: u64) -> Id {
        Id::Int(u as usize)
    }
}

impl From<String> for Id {
    fn from(s: String) -> (r: Id) {
        Id::String(s)
    }
}

impl vstd::std_specs::convert::FromSpecImpl<String> for Id {
    open spec fn obeys_from_spec() -> bool {
        true
    }

    open spec fn from_spec(s: String) -> Id {
        Id::String(s)
    }
}

impl From<Uuid> for Id {
    fn from(u: Uuid) -> (r: Id) {
        Id::UUID(u)
    }
}

impl vstd::std_specs::convert::FromSpecImpl<Uuid> for Id {
    open spec fn obeys_from_spec() -> bool {
        true
    }

    open spec fn from_spec(u: Uuid) -> Id {
        Id::UUID(u)
    }
}

} // verus!
