//! Timesheet submission core: quarter routing, the data-driven login and
//! form-filling interpreters, the run orchestrator and the persisted
//! submission lifecycle.
use vstd::prelude::*;
use crate::text::{find_char, owned};

pub mod text;
pub mod clock;
pub mod config;
pub mod quarter;
pub mod login;
pub mod webform;
pub mod orchestrator;
pub mod lifecycle;
pub mod drafts;
pub mod submission;
pub mod auth;

verus! {

/// An email address as logs may show it: `***` followed by the domain part
/// from the `@` on, or `***` alone when there is no `@`.
pub open spec fn redacted(email: Seq<char>) -> Seq<char> {
    if exists|i: int| 0 <= i < email.len() && email[i] == '@' {
        "***"@ + email.subrange(choose|i: int| 0 <= i < email.len() && email[i] == '@'
            && forall|k: int| 0 <= k < i ==> email[k] != '@', email.len() as int)
    } else {
        "***"@
    }
}

/// Redacts an email address for logging.
pub fn redact_email(email: &str) -> (r: String)
    ensures
        r@ == redacted(email@),
{
    match find_char(email, '@') {
        Some(at) => {
            let mut out = owned("***");
            let n = email.unicode_len();
            out.append(email.substring_char(at, n));
            proof {
                let c = choose|i: int| 0 <= i < email@.len() && email@[i] == '@'
                    && forall|k: int| 0 <= k < i ==> email@[k] != '@';
                assert(c == at as int) by {
                    if c < at as int {
                        assert(email@[c] != '@');
                    } else if c > at as int {
                        assert(email@[at as int] != '@');
                    }
                }
            }
            out
        },
        None => owned("***"),
    }
}

} // verus!
