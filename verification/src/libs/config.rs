use vstd::prelude::*;

verus! {

/// A setting as the server uses it: the value the environment gives when it
/// gives one, else the default.
pub fn setting_or_default(value: Option<String>, default: &str) -> (r: String)
    ensures
        match value {
            Some(v) => r@ == v@,
            None => r@ == default@,
        },
{
    match value {
        Some(v) => v,
        None => default.to_owned(),
    }
}

/// The address the server listens on: the host, a colon, and the port.
pub fn listen_address(host: &str, port: &str) -> (r: String)
    ensures
        r@ == host@ + ":"@ + port@,
{
    let mut r = host.to_owned();
    r.append(":");
    r.append(port);
    r
}

} // verus!
