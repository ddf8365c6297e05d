//! One parsed query reply: the correlation id the server echoed back, an
//! optional value, and whether the server reported an error.

use vstd::prelude::*;
use vstd::string::*;
use crate::text::{split_spaces, strip_newlines, tokenize, strip_nl};

verus! {

/// The tokens a reply line is read as: newlines removed, then split at
/// every single space.
pub open spec fn reply_tokens(line: Seq<char>) -> Seq<Seq<char>> {
    split_spaces(strip_newlines(line))
}

/// A query reply, consumed exactly once by the pending slot it matches.
#[derive(Debug, Clone)]
pub struct CacheQuery {
    /// The correlation id echoed back by the server.
    pub id: String,
    /// The optional value carried by the reply.
    pub value: Option<String>,
    /// True iff the server answered `ERROR`.
    pub is_error: bool,
}

impl CacheQuery {
    /// Parses one reply line: the first token is the id, the second the
    /// status, and a third token, present exactly when there are three
    /// tokens, is the value.  Fewer than two tokens is a malformed frame.
    pub fn from_str(query: &str) -> (r: Result<CacheQuery, &'static str>)
        ensures
            ({
                let toks = reply_tokens(query@);
                match r {
                    Ok(q) => {
                        &&& toks.len() >= 2
                        &&& q.id@ == toks[0]
                        &&& q.is_error == (toks[1] == "ERROR"@)
                        &&& match q.value {
                            Some(v) => toks.len() == 3 && v@ == toks[2],
                            None => toks.len() != 3,
                        }
                    },
                    Err(e) => toks.len() < 2 && e@ == "Invalid query"@,
                }
            }),
    {
        let escaped = strip_nl(query);
        let parts = tokenize(escaped.as_str());
        proof {
            assert(parts@.map_values(|t: String| t@) == reply_tokens(query@));
            assert(parts@.len() == reply_tokens(query@).len());
        }
        if parts.len() < 2 {
            return Err("Invalid query");
        }
        let status_is_error = {
            let err = String::from_str("ERROR");
            proof {
                assert(parts@.map_values(|t: String| t@)[1] == parts@[1]@);
            }
            parts[1].eq(&err)
        };
        let value: Option<&String> = if parts.len() == 3 {
            proof {
                assert(parts@.map_values(|t: String| t@)[2] == parts@[2]@);
            }
            Some(&parts[2])
        } else {
            None
        };
        proof {
            assert(parts@.map_values(|t: String| t@)[0] == parts@[0]@);
        }
        let q = match value {
            Some(v) => CacheQuery::new(parts[0].as_str(), Some(v.as_str()), status_is_error),
            None => CacheQuery::new(parts[0].as_str(), None, status_is_error),
        };
        Ok(q)
    }

    /// Builds a reply from its parts.
    pub fn new(id: &str, value: Option<&str>, is_error: bool) -> (q: CacheQuery)
        ensures
            q.id@ == id@,
            q.is_error == is_error,
            match (q.value, value) {
                (Some(qv), Some(v)) => qv@ == v@,
                (None, None) => true,
                _ => false,
            },
    {
        let owned_value = match value {
            Some(v) => Some(v.to_owned()),
            None => None,
        };
        CacheQuery { id: id.to_owned(), value: owned_value, is_error }
    }
}

} // verus!
