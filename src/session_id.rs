//! Session identifiers: `session_` followed by at least eight more characters.

use vstd::prelude::*;
use crate::text::{starts_with, has_prefix};

verus! {

/// A well-formed session ID: the prefix `session_`, then at least eight
/// characters on the same line (the pattern `^session_.{8,}`).
pub open spec fn is_session_id(s: Seq<char>) -> bool {
    &&& has_prefix(s, "session_"@)
    &&& s.len() >= 16
    &&& forall|i: int| 8 <= i < 16 ==> s[i] != '\n'
}

/// Why a session ID was refused.
#[derive(Debug, Clone, PartialEq, Eq)]
pub struct InvalidSessionId {
    pub id: String,
}

impl InvalidSessionId {
    /// Human-readable explanation, quoting the refused ID.
    pub fn message(&self) -> (r: String)
        ensures
            r@ == "Invalid session ID format: '"@ + self.id@
                + "'. Expected format: session_01... (e.g. session_01QJaJSUgfY6khmFTzJaMqph)"@,
    {
        String::from_str("Invalid session ID format: '").concat(self.id.as_str()).concat(
            "'. Expected format: session_01... (e.g. session_01QJaJSUgfY6khmFTzJaMqph)",
        )
    }
}

/// Checks a session ID before any request is made with it.
pub fn validate_session_id(id: &str) -> (r: Result<(), InvalidSessionId>)
    ensures
        r is Ok <==> is_session_id(id@),
        r matches Err(e) ==> e.id@ == id@,
{
    let prefix = "session_";
    proof {
        reveal_strlit("session_");
    }
    if !(starts_with(id, prefix) && id.unicode_len() >= 16) {
        return Err(InvalidSessionId { id: String::from_str(id) });
    }
    let mut i: usize = 8;
    while i < 16
        invariant
            8 <= i <= 16,
            id@.len() >= 16,
            has_prefix(id@, prefix@),
            forall|k: int| 8 <= k < i ==> id@[k] != '\n',
        decreases 16 - i,
    {
        if id.get_char(i) == '\n' {
            return Err(InvalidSessionId { id: String::from_str(id) });
        }
        i = i + 1;
    }
    Ok(())
}

} // verus!
