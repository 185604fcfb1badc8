//! Server settings that come from the environment.
use vstd::prelude::*;
use vstd::string::*;

verus! {

/// The bind address: the configured one, or loopback port 8787. The server
/// has no authentication, which is safe only because of the loopback bind.
pub fn bind_or_default(configured: Option<String>) -> (b: String)
    ensures
        configured matches Some(c) ==> b@ == c@,
        configured is None ==> b@ == "127.0.0.1:8787"@,
{
    match configured {
        Some(c) => c,
        None => String::from_str("127.0.0.1:8787"),
    }
}

/// A setting the server cannot start without: its value, or the message that
/// it must be set.
pub fn required(key: &str, value: Option<String>) -> (r: Result<String, String>)
    ensures
        value matches Some(v) ==> (r matches Ok(s) && s@ == v@),
        value is None ==> (r matches Err(m) && m@ == key@ + " must be set"@),
{
    match value {
        Some(v) => Ok(v),
        None => {
            let mut m = String::from_str(key);
            m.append(" must be set");
            Err(m)
        },
    }
}

} // verus!
