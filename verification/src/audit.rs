//! Strict-sequence audit: a list of observed nonces must continue a starting
//! nonce one by one, without gap or repeat.

use crate::decimal::{decimal_u64, parse_decimal_u64};
use crate::error::{CryptoError, ParseFault};
use vstd::prelude::*;

verus! {

/// One observed record: a decimal nonce and an epoch. The epoch is carried
/// for the caller's own policy and plays no part in the audit.
#[derive(Clone, Debug, PartialEq, Eq)]
pub struct Assignment {
    pub nonce: String,
    pub epoch: i32,
}

/// What a record holds: its nonce text and its epoch.
pub struct AssignmentText {
    pub nonce: Seq<char>,
    pub epoch: i32,
}

impl View for Assignment {
    type V = AssignmentText;

    open spec fn view(&self) -> AssignmentText {
        AssignmentText { nonce: self.nonce@, epoch: self.epoch }
    }
}

/// Record `i` holds the number `i + 1` steps after `start`.
pub open spec fn record_follows(nonces: Seq<Seq<char>>, start: u64, i: int) -> bool {
    decimal_u64(nonces[i]) matches Some(v) && v == start + i + 1
}

/// The first `upto` records continue `start` one by one.
pub open spec fn contiguous_prefix(nonces: Seq<Seq<char>>, start: u64, upto: int) -> bool {
    forall|i: int| 0 <= i < upto ==> #[trigger] record_follows(nonces, start, i)
}

/// `at` is the first record that does not continue the sequence.
pub open spec fn breaks_at(nonces: Seq<Seq<char>>, start: u64, at: int) -> bool {
    &&& 0 <= at < nonces.len()
    &&& contiguous_prefix(nonces, start, at)
    &&& !record_follows(nonces, start, at)
}

/// What an audit of `nonces` against the starting text answers.
///
/// A start that is no number is an error. Otherwise the records are taken in
/// order up to the first one that does not continue the sequence: if there is
/// none the audit holds; if that record is no number it is reported with its
/// index; if it is a number, the audit fails without looking further.
pub open spec fn audit_outcome(nonces: Seq<Seq<char>>, start_text: Seq<char>) -> Result<
    bool,
    CryptoError,
> {
    match decimal_u64(start_text) {
        None => Err(CryptoError::Parse(ParseFault::StartNonce)),
        Some(start) => {
            if contiguous_prefix(nonces, start, nonces.len() as int) {
                Ok(true)
            } else {
                let at = choose|at: int| breaks_at(nonces, start, at);
                if decimal_u64(nonces[at]) is None {
                    Err(CryptoError::Parse(ParseFault::Record { index: at as usize }))
                } else {
                    Ok(false)
                }
            }
        },
    }
}

/// The nonce texts of a list of records, in order. The epochs are left
/// behind here: no answer of an audit depends on them.
pub open spec fn nonce_texts(records: Seq<Assignment>) -> Seq<Seq<char>> {
    Seq::new(records.len(), |i: int| records[i]@.nonce)
}

/// A sequence breaks at one record at most, and one that breaks is not
/// contiguous as a whole.
pub proof fn lemma_first_break(nonces: Seq<Seq<char>>, start: u64, at: int)
    requires
        breaks_at(nonces, start, at),
    ensures
        !contiguous_prefix(nonces, start, nonces.len() as int),
        (choose|b: int| breaks_at(nonces, start, b)) == at,
{
}

/// Audits `records` against `start_nonce`.
///
/// Answers `Ok(true)` when every record, in order, holds the number that
/// follows its predecessor (the first one follows `start_nonce`), `Ok(false)`
/// at the first record that holds another number, and an error where the
/// starting nonce or the first offending record is no decimal number.
/// Records after the first offending one are not looked at.
pub fn audit_sequence(records: &[Assignment], start_nonce: &str) -> (r: Result<bool, CryptoError>)
    ensures
        r == audit_outcome(nonce_texts(records@), start_nonce@),
{
    let ghost nonces = nonce_texts(records@);
    let start: u64 = match parse_decimal_u64(start_nonce) {
        Some(v) => v,
        None => {
            return Err(CryptoError::Parse(ParseFault::StartNonce));
        },
    };
    let mut current: u64 = start;
    let mut i: usize = 0;
    while i < records.len()
        invariant
            i <= records.len(),
            nonces == nonce_texts(records@),
            decimal_u64(start_nonce@) == Some(start),
            current == start + i,
            contiguous_prefix(nonces, start, i as int),
        decreases records.len() - i,
    {
        let parsed = parse_decimal_u64(records[i].nonce.as_str());
        match parsed {
            None => {
                proof {
                    lemma_first_break(nonces, start, i as int);
                }
                return Err(CryptoError::Parse(ParseFault::Record { index: i }));
            },
            Some(actual) => {
                if current == u64::MAX || actual != current + 1 {
                    proof {
                        lemma_first_break(nonces, start, i as int);
                    }
                    return Ok(false);
                }
                current = actual;
            },
        }
        i = i + 1;
    }
    Ok(true)
}

} // verus!
