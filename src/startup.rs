//! The liveness check made once before serving.

use vstd::prelude::*;

verus! {

/// The command sent to the store to see that it answers.
pub fn ping_command() -> (r: String)
    ensures
        r@ == "PING"@,
{
    String::from_str("PING")
}

/// Whether the store's reply to the ping is the expected one.
pub fn is_pong(reply: &String) -> (r: bool)
    ensures
        r == (reply@ == "PONG"@),
{
    let expected = String::from_str("PONG");
    reply.eq(&expected)
}

} // verus!
