//! Identifiers that are known not to be the nil identifier.

use crate::layout::filled;
use crate::value::Uuid;
use vstd::prelude::*;

verus! {

/// An identifier that is not the nil identifier: at least one of its bytes is
/// not zero.
#[derive(Clone, Copy, Debug, PartialEq, Eq)]
pub struct NonNilUuid(Uuid);

impl NonNilUuid {
    #[verifier::type_invariant]
    spec fn not_nil(self) -> bool {
        self.0@ != filled(0)
    }

    /// The identifier itself.
    pub closed spec fn uuid(self) -> Uuid {
        self.0
    }

    /// `uuid` as an identifier known not to be nil, unless it is nil.
    pub fn new(uuid: Uuid) -> (r: Option<NonNilUuid>)
        ensures
            match r {
                Some(n) => uuid@ != filled(0) && n.uuid() == uuid,
                None => uuid@ == filled(0),
            },
    {
        if uuid == Uuid::nil() {
            None
        } else {
            Some(NonNilUuid(uuid))
        }
    }

    /// The identifier itself, which is not nil.
    pub fn get(self) -> (r: Uuid)
        ensures
            r == self.uuid(),
            r@ != filled(0),
    {
        proof {
            use_type_invariant(&self);
        }
        self.0
    }
}

} // verus!
