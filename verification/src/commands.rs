//! Builders for the wire commands the client sends.  Every command is one
//! `\n`-terminated line whose first token is the correlation id the server
//! echoes back in its reply.

use vstd::prelude::*;
use vstd::string::*;
use crate::text::{dec_chars, u64_to_string};

verus! {

/// The line that asks the server to store `value` under `key`, with an
/// optional time-to-live in `ttl`.
pub fn set(id: &str, key: &str, value: &str, ttl: Option<u64>) -> (r: String)
    ensures
        match ttl {
            None => r@ == id@ + " SET "@ + key@ + " "@ + value@ + "\n"@,
            Some(t) => r@ == id@ + " SET "@ + key@ + " "@ + value@ + " "@ + dec_chars(t as nat)
                + "\n"@,
        },
{
    let mut s = id.to_owned();
    s.append(" SET ");
    s.append(key);
    s.append(" ");
    s.append(value);
    match ttl {
        None => {
            s.append("\n");
            proof {
                assert(s@ =~= id@ + " SET "@ + key@ + " "@ + value@ + "\n"@);
            }
        },
        Some(t) => {
            s.append(" ");
            let ts = u64_to_string(t);
            s.append(ts.as_str());
            s.append("\n");
            proof {
                assert(s@ =~= id@ + " SET "@ + key@ + " "@ + value@ + " "@ + dec_chars(t as nat)
                    + "\n"@);
            }
        },
    }
    s
}

/// The line that asks the server for the value stored under `key`.
pub fn get(id: &str, key: &str) -> (r: String)
    ensures
        r@ == id@ + " GET "@ + key@ + "\n"@,
{
    let mut s = id.to_owned();
    s.append(" GET ");
    s.append(key);
    s.append("\n");
    proof {
        assert(s@ =~= id@ + " GET "@ + key@ + "\n"@);
    }
    s
}

/// The line that asks the server to remove the value stored under `key`.
pub fn del(id: &str, key: &str) -> (r: String)
    ensures
        r@ == id@ + " DELETE "@ + key@ + "\n"@,
{
    let mut s = id.to_owned();
    s.append(" DELETE ");
    s.append(key);
    s.append("\n");
    proof {
        assert(s@ =~= id@ + " DELETE "@ + key@ + "\n"@);
    }
    s
}

/// The line that publishes `payload` on `topic`.
pub fn publish(id: &str, topic: &str, payload: &str) -> (r: String)
    ensures
        r@ == id@ + " PUBLISH "@ + topic@ + " "@ + payload@ + "\n"@,
{
    let mut s = id.to_owned();
    s.append(" PUBLISH ");
    s.append(topic);
    s.append(" ");
    s.append(payload);
    s.append("\n");
    proof {
        assert(s@ =~= id@ + " PUBLISH "@ + topic@ + " "@ + payload@ + "\n"@);
    }
    s
}

/// The line that subscribes this client to `topic`.
pub fn subscribe(id: &str, topic: &str) -> (r: String)
    ensures
        r@ == id@ + " SUBSCRIBE "@ + topic@ + "\n"@,
{
    let mut s = id.to_owned();
    s.append(" SUBSCRIBE ");
    s.append(topic);
    s.append("\n");
    proof {
        assert(s@ =~= id@ + " SUBSCRIBE "@ + topic@ + "\n"@);
    }
    s
}

/// The line that ends this client's subscription to `topic`.
pub fn unsubscribe(id: &str, topic: &str) -> (r: String)
    ensures
        r@ == id@ + " UNSUBSCRIBE "@ + topic@ + "\n"@,
{
    let mut s = id.to_owned();
    s.append(" UNSUBSCRIBE ");
    s.append(topic);
    s.append("\n");
    proof {
        assert(s@ =~= id@ + " UNSUBSCRIBE "@ + topic@ + "\n"@);
    }
    s
}

} // verus!
