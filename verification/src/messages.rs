//! A closed tagged union of messages and its exhaustive dispatch.

use vstd::prelude::*;
use vstd::string::StringExecFns;

verus! {

/// A message is exactly one of two variants: a greeting carrying text,
/// or a payload-free request to quit.
pub enum Message {
    Hello(String),
    Quit,
}

/// The reply text for a quit message.
pub open spec fn quit_reply() -> Seq<char> {
    "Quitting"@
}

/// The reply text for a greeting carrying `m`.
pub open spec fn greeting_reply(m: Seq<char>) -> Seq<char> {
    "Received message: "@ + m
}

/// Dispatches over the two variants: a greeting yields the greeting reply
/// around its carried text, a quit yields the fixed quit reply.
pub fn describe(message: &Message) -> (out: String)
    ensures
        message matches Message::Hello(m) ==> out@ == greeting_reply(m@),
        message matches Message::Quit ==> out@ == quit_reply(),
{
    match message {
        Message::Hello(m) => {
            let prefix = String::from_str("Received message: ");
            prefix.concat(m.as_str())
        },
        Message::Quit => String::from_str("Quitting"),
    }
}

/// The two branches of the dispatch are disjoint: the quit reply is never
/// a greeting reply, whatever text the greeting carries. So a quit message
/// can never be answered as if it were a greeting, nor the reverse.
pub proof fn lemma_replies_disjoint(m: Seq<char>)
    ensures
        quit_reply() != greeting_reply(m),
{
    reveal_strlit("Quitting");
    reveal_strlit("Received message: ");
    assert(quit_reply().len() == 8);
    assert(greeting_reply(m).len() == 18 + m.len());
}

} // verus!
