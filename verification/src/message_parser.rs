//! The plain test for a failed PAM authentication.

use vstd::prelude::*;
use vstd::string::*;

use crate::byte_text::{
    find_from, lemma_first_occurrence_suffices, lemma_no_first_no_order, occurs_at, occurs_from,
    occurs_in_order,
};

verus! {

/// What marks a line as written by `pam_unix`.
pub const PAM_PREFIX: &'static str = "pam_unix";

/// What `pam_unix` writes when authentication fails.
pub const AUTH_FAILURE_MESSAGE: &'static str = "authentication failure";

/// The index just behind the first `pam_unix` in `message`, counted in
/// bytes, if `message` holds one.
pub fn find_pam_prefix_end(message: &str) -> (end: Option<usize>)
    ensures
        match end {
            Some(end) => {
                let start = end - PAM_PREFIX.spec_bytes().len();
                &&& occurs_at(message.spec_bytes(), PAM_PREFIX.spec_bytes(), start)
                &&& forall|earlier: int|
                    0 <= earlier < start ==> !occurs_at(
                        message.spec_bytes(),
                        PAM_PREFIX.spec_bytes(),
                        earlier,
                    )
            },
            None => !occurs_from(message.spec_bytes(), PAM_PREFIX.spec_bytes(), 0),
        },
{
    let text = message.as_bytes();
    let prefix = PAM_PREFIX.as_bytes();
    match find_from(text, prefix, 0) {
        Some(position) => {
            let length: usize = text.len();
            assert(position + prefix@.len() <= length);
            Some(position + prefix.len())
        },
        None => None,
    }
}

/// Whether `message` reports a failed authentication by `pam_unix`: the
/// bytes of `pam_unix` stand in it, and those of `authentication failure`
/// stand somewhere behind them.
pub fn is_auth_failed_message(message: &str) -> (failed: bool)
    ensures
        failed == occurs_in_order(
            message.spec_bytes(),
            PAM_PREFIX.spec_bytes(),
            AUTH_FAILURE_MESSAGE.spec_bytes(),
        ),
{
    let text = message.as_bytes();
    let phrase = AUTH_FAILURE_MESSAGE.as_bytes();
    match find_pam_prefix_end(message) {
        None => {
            proof {
                lemma_no_first_no_order(text@, PAM_PREFIX.spec_bytes(), phrase@);
            }
            false
        },
        Some(end) => {
            proof {
                lemma_first_occurrence_suffices(
                    text@,
                    PAM_PREFIX.spec_bytes(),
                    phrase@,
                    end - PAM_PREFIX.spec_bytes().len(),
                );
            }
            find_from(text, phrase, end).is_some()
        },
    }
}

} // verus!
