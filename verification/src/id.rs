//! Opaque document identifiers, carried as canonical uuid text. The store
//! assigns ids as the trailing segment of a resource name; this layer only
//! ever writes ids it validated, so canonical text is an invariant, not a
//! convention.

use crate::text::{check_uuid_text, is_uuid_text};
use vstd::prelude::*;

verus! {

/// A document id: canonical uuid text (36 characters, lower-case hex,
/// hyphens after the 8th, 12th, 16th and 20th digit).
#[derive(Debug)]
pub struct Id {
    text: String,
}

impl View for Id {
    type V = Seq<char>;

    closed spec fn view(&self) -> Seq<char> {
        self.text@
    }
}

impl Id {
    pub open spec fn wf(&self) -> bool {
        is_uuid_text(self@)
    }

    /// Every id value holds canonical uuid text: the only constructor
    /// validates, so the invariant is global.
    #[verifier::type_invariant]
    pub open spec fn inv(&self) -> bool {
        self.wf()
    }

    /// Accepts exactly canonical uuid text.
    pub fn parse(s: &str) -> (r: Option<Id>)
        ensures
            r is Some <==> is_uuid_text(s@),
            r matches Some(id) ==> id@ == s@ && id.wf(),
    {
        if check_uuid_text(s) {
            Some(Id { text: s.to_owned() })
        } else {
            None
        }
    }

    pub fn as_str(&self) -> (r: &str)
        ensures
            r@ == self@,
            is_uuid_text(r@),
    {
        proof {
            use_type_invariant(self);
        }
        self.text.as_str()
    }
}

impl Clone for Id {
    fn clone(&self) -> (r: Self)
        ensures
            r == *self,
    {
        proof {
            use_type_invariant(self);
        }
        Id { text: self.text.clone() }
    }
}

impl PartialEq for Id {
    fn eq(&self, other: &Self) -> (r: bool) {
        self.text.eq(&other.text)
    }
}

impl vstd::std_specs::cmp::PartialEqSpecImpl for Id {
    open spec fn obeys_eq_spec() -> bool {
        true
    }

    open spec fn eq_spec(&self, other: &Self) -> bool {
        self@ == other@
    }
}

} // verus!
