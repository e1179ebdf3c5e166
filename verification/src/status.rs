//! Messages for HTTP replies that the tasks do not accept.
use vstd::prelude::*;
use vstd::string::StringExecFns;

use crate::bindings::fmt::push_decimal;
use crate::text::decimal;

verus! {

/// `unexpected status code: <status>`
pub open spec fn unexpected_status_text(status: u16) -> Seq<char> {
    "unexpected status code: "@ + decimal(status as nat)
}

/// The message for a reply whose status the task does not handle.
pub fn unexpected_status(status: u16) -> (m: String)
    ensures
        m@ == unexpected_status_text(status),
{
    let mut m = String::from_str("unexpected status code: ");
    push_decimal(&mut m, status as u128);
    m
}

/// The same message, followed by the reply's body.
pub fn unexpected_status_with_body(status: u16, body: &str) -> (m: String)
    ensures
        m@ == unexpected_status_text(status) + " body: "@ + body@,
{
    let mut m = unexpected_status(status);
    m.append(" body: ");
    m.append(body);
    m
}

/// The message for a price source that limits the rate of requests.
pub open spec fn rate_limited_text() -> Seq<char> {
    "rate limited, price unavailable"@
}

/// Decides on the status of a reply from a public API: `200` is read, `429`
/// means the rate limit was hit, anything else is unexpected.
pub fn check_api_status(status: u16) -> (r: Result<(), String>)
    ensures
        status == 200 <==> r is Ok,
        status == 429 ==> (r matches Err(m) && m@ == rate_limited_text()),
        status != 200 && status != 429 ==> (r matches Err(m) && m@ == unexpected_status_text(
            status,
        )),
{
    if status == 200 {
        Ok(())
    } else if status == 429 {
        Err(String::from_str("rate limited, price unavailable"))
    } else {
        Err(unexpected_status(status))
    }
}

} // verus!
