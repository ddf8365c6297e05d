//! Generation of correlation ids.  Every command line starts with one, and
//! the server echoes it back so the reply can be matched to its caller.

use vstd::prelude::*;

verus! {

/// What every generated correlation id satisfies: the 36 characters of a
/// hyphenated identifier, none of them a space or a newline, so the id is
/// always one whole token of a command line.
pub open spec fn valid_id(s: Seq<char>) -> bool {
    s.len() == 36 && forall|i: int| 0 <= i < s.len() ==> s[i] != ' ' && s[i] != '\n'
}

/// Relies on uuid::Uuid::new_v4 and its Display form: a fresh random
/// identifier rendered as 36 lowercase hexadecimal digits and hyphens.
#[verifier::external_body]
pub(crate) fn gen_id() -> (r: String)
    ensures
        r@.len() == 36,
        forall|i: int| 0 <= i < r@.len() ==> r@[i] != ' ' && r@[i] != '\n',
{
    uuid::Uuid::new_v4().to_string()
}

} // verus!
