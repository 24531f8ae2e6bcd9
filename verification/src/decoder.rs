//! Restore-state decoder: turns the backend's raw restore-status header into
//! a structured lifecycle state.
//!
//! The scan is case-insensitive and ordered: an ongoing-request marker wins
//! over any embedded expiry token, which wins over the not-ongoing fallback.
//! Only the RFC-2822 timestamp parse is delegated to an outside crate.

use vstd::prelude::*;

use crate::models::{RestoreState, RestoreStateView};
use crate::text::{contains_sub, contains_sub_exec, find_sub, first_match, fold_bytes,
    fold_bytes_exec, vec_subrange};
use vstd::string::StrSliceExecFns;
use vstd::utf8::encode_utf8;

verus! {

/// The UTC RFC-3339 rendering of an RFC-2822 timestamp held as UTF-8 bytes,
/// or nothing when the bytes do not parse as such a timestamp; the answer
/// depends on the bytes alone.
pub uninterp spec fn rfc2822_utc(b: Seq<u8>) -> Option<Seq<char>>;

/// Relies on chrono's DateTime::parse_from_rfc2822, DateTime::with_timezone
/// (to UTC) and DateTime::to_rfc3339: together a pure function of the input
/// text, here carried as bytes.
#[verifier::external_body]
fn parse_rfc2822_to_utc(bytes: &Vec<u8>) -> (r: Option<String>)
    ensures
        r is Some <==> rfc2822_utc(bytes@) is Some,
        r matches Some(s) ==> rfc2822_utc(bytes@) == Some(s@),
{
    std::str::from_utf8(bytes)
        .ok()
        .and_then(|s| chrono::DateTime::parse_from_rfc2822(s).ok())
        .map(|dt| dt.with_timezone(&chrono::Utc).to_rfc3339())
}

/// The marker of a restore request still running.
pub open spec fn token_ongoing_true() -> Seq<u8> {
    encode_utf8("ongoing-request=\"true\""@)
}

/// The marker of a restore request that has completed.
pub open spec fn token_ongoing_false() -> Seq<u8> {
    encode_utf8("ongoing-request=\"false\""@)
}

/// The marker that introduces a quoted expiry timestamp.
pub open spec fn token_expiry() -> Seq<u8> {
    encode_utf8("expiry-date=\""@)
}

/// The bytes between the first expiry marker and the quote that closes it
/// (or the end of the text when no quote follows).
pub open spec fn expiry_field(l: Seq<u8>) -> Seq<u8> {
    let start = first_match(token_expiry(), l) + token_expiry().len();
    let rest = l.subrange(start, l.len() as int);
    let q = first_match(seq![34u8], rest);
    if q < 0 {
        rest
    } else {
        rest.subrange(0, q)
    }
}

/// The lifecycle state encoded by the raw restore-status text `raw`:
/// an ongoing marker means in progress without a known expiry; otherwise a
/// parseable expiry timestamp means in progress until then, an unparseable
/// one falls back to available; otherwise a completed marker means
/// available; anything else means the restore has expired.
pub open spec fn decoded_restore_state(raw: Seq<char>) -> RestoreStateView {
    let l = fold_bytes(encode_utf8(raw));
    if contains_sub(token_ongoing_true(), l) {
        RestoreStateView::InProgress { expiry: None }
    } else if contains_sub(token_expiry(), l) {
        match rfc2822_utc(expiry_field(l)) {
            Some(t) => RestoreStateView::InProgress { expiry: Some(t) },
            None => RestoreStateView::Available,
        }
    } else if contains_sub(token_ongoing_false(), l) {
        RestoreStateView::Available
    } else {
        RestoreStateView::Expired
    }
}

/// The ongoing-request marker takes precedence over any embedded expiry
/// token: text holding both decodes as in progress with no known expiry.
pub proof fn lemma_ongoing_wins(raw: Seq<char>)
    requires
        contains_sub(token_ongoing_true(), fold_bytes(encode_utf8(raw))),
    ensures
        decoded_restore_state(raw) == (RestoreStateView::InProgress { expiry: None }),
{
}

/// Decodes the backend's optional restore-status text; absence means the
/// object is not archived and has no restore lifecycle.
pub fn parse_restore_state(raw: Option<&str>) -> (r: Option<RestoreState>)
    ensures
        r is Some <==> raw is Some,
        raw matches Some(s) ==> r matches Some(st) && st@ == decoded_restore_state(s@),
{
    let value = match raw {
        None => {
            return None;
        },
        Some(v) => v,
    };
    let l = fold_bytes_exec(&value.as_bytes_vec());
    let tok_true = "ongoing-request=\"true\"".as_bytes_vec();
    if contains_sub_exec(&tok_true, &l) {
        return Some(RestoreState::InProgress { expiry: None });
    }
    let tok_expiry = "expiry-date=\"".as_bytes_vec();
    match find_sub(&tok_expiry, &l) {
        Some(at) => {
            let n = l.len();
            proof {
                assert(at + tok_expiry@.len() <= n);
            }
            let start = at + tok_expiry.len();
            let rest = vec_subrange(&l, start, l.len());
            proof {
                assert(rest@ == l@.subrange(
                    first_match(token_expiry(), l@) + token_expiry().len(),
                    l@.len() as int,
                ));
            }
            let mut quote: Vec<u8> = Vec::new();
            quote.push(34);
            proof {
                assert(quote@ =~= seq![34u8]);
            }
            let field = match find_sub(&quote, &rest) {
                Some(q) => vec_subrange(&rest, 0, q),
                None => rest,
            };
            proof {
                assert(field@ == expiry_field(l@));
            }
            match parse_rfc2822_to_utc(&field) {
                Some(t) => Some(RestoreState::InProgress { expiry: Some(t) }),
                None => Some(RestoreState::Available),
            }
        },
        None => {
            let tok_false = "ongoing-request=\"false\"".as_bytes_vec();
            if contains_sub_exec(&tok_false, &l) {
                Some(RestoreState::Available)
            } else {
                Some(RestoreState::Expired)
            }
        },
    }
}

} // verus!
