//! The session-ready hook: the one lifecycle event that produces output, a
//! line naming the authenticated identity.
use vstd::prelude::*;
use vstd::string::StringExecFns;
use crate::text::{dec_str, push_decimal};

verus! {

/// A lifecycle event as the hook reads it: either the session became ready,
/// with the authenticated identity's display name and id, or anything else.
#[derive(PartialEq, Eq, Debug)]
pub enum SessionEvent {
    Ready { user_name: String, user_id: u64 },
    Other,
}

/// The identity line written once the session is ready.
pub open spec fn login_text(user_name: Seq<char>, user_id: u64) -> Seq<char> {
    "Logged in as "@ + user_name + " ("@ + dec_str(user_id as nat) + ")"@
}

/// Handles one lifecycle event: the ready event yields the identity line to
/// write; every other event yields nothing.
pub fn ready_handler(event: &SessionEvent) -> (r: Option<String>)
    ensures
        (match event {
            SessionEvent::Ready { user_name, user_id } => r matches Some(line) && line@
                == login_text(user_name@, *user_id),
            SessionEvent::Other => r is None,
        }),
{
    match event {
        SessionEvent::Ready { user_name, user_id } => {
            let mut m = String::from_str("Logged in as ");
            m.append(user_name.as_str());
            m.append(" (");
            push_decimal(&mut m, *user_id);
            m.append(")");
            Some(m)
        },
        SessionEvent::Other => None,
    }
}

} // verus!
