//! Identifiers issued by the server.

use vstd::prelude::*;

verus! {

/// An identifier issued by the server: a non-empty string with no structure
/// that this library knows of. It is compared and passed on, never taken apart.
#[derive(Debug, PartialEq, Eq)]
pub struct OpaqueId {
    text: String,
}

impl View for OpaqueId {
    type V = Seq<char>;

    closed spec fn view(&self) -> Seq<char> {
        self.text@
    }
}

/// What `OpaqueId::new` makes of a string: the string itself, unless it is empty.
pub open spec fn id_of_text(text: Seq<char>) -> Option<Seq<char>> {
    if text.len() > 0 {
        Some(text)
    } else {
        None
    }
}

impl OpaqueId {
    #[verifier::type_invariant]
    spec fn wf(self) -> bool {
        self.text@.len() > 0
    }

    /// Takes `text` as an identifier; the empty string is none.
    pub fn new(text: &str) -> (id: Option<OpaqueId>)
        ensures
            match id {
                Some(id) => id_of_text(text@) == Some(id@),
                None => id_of_text(text@).is_none(),
            },
    {
        if text.is_empty() {
            None
        } else {
            Some(OpaqueId { text: text.to_owned() })
        }
    }

    /// The identifier as the server wrote it.
    pub fn as_str(&self) -> (text: &str)
        ensures
            text@ == self@,
            text@.len() > 0,
    {
        proof {
            use_type_invariant(self);
        }
        self.text.as_str()
    }
}

impl Clone for OpaqueId {
    fn clone(&self) -> (copy: Self)
        ensures
            copy@ == self@,
    {
        proof {
            use_type_invariant(self);
        }
        OpaqueId { text: self.text.clone() }
    }
}

} // verus!
