//! The battery charge-limit attribute (`charge_control_end_threshold`):
//! what a valid limit is, what is written for one, and how what is read
//! back is understood.
use vstd::prelude::*;

use crate::error::ControlError;
use crate::text::{
    all_white, decimal, decimal_u8, lemma_decimal, lemma_digits_not_white, lemma_parse_decimal,
    lemma_trim_word_then_white, parse_unsigned, parse_unsigned_str, trim, trim_str,
};

verus! {

/// The lowest charge limit the driver accepts.
pub const MIN_CHARGE_LIMIT: u8 = 20;

/// The highest charge limit the driver accepts.
pub const MAX_CHARGE_LIMIT: u8 = 100;

/// The attribute's file name inside a power-supply device directory.
pub const THRESHOLD_FILE: &'static str = "charge_control_end_threshold";

/// A charge limit the driver accepts.
pub open spec fn in_range(limit: u8) -> bool {
    MIN_CHARGE_LIMIT <= limit && limit <= MAX_CHARGE_LIMIT
}

/// Bounds-checks a requested limit before it ever reaches hardware.
pub fn validate(limit: u8) -> (r: Result<(), ControlError>)
    ensures
        20 <= limit <= 100 ==> r == Ok::<(), ControlError>(()),
        in_range(limit) ==> r == Ok::<(), ControlError>(()),
        !in_range(limit) ==> r == Err::<(), ControlError>(
            ControlError::OutOfRange { value: limit, min: MIN_CHARGE_LIMIT, max: MAX_CHARGE_LIMIT },
        ),
{
    if MIN_CHARGE_LIMIT <= limit && limit <= MAX_CHARGE_LIMIT {
        Ok(())
    } else {
        Err(ControlError::OutOfRange { value: limit, min: MIN_CHARGE_LIMIT, max: MAX_CHARGE_LIMIT })
    }
}

/// The limit that the attribute's contents `raw` state, if they state one:
/// the trimmed text read as a `u8`.
pub open spec fn limit_in(raw: Seq<char>) -> Option<nat> {
    parse_unsigned(trim(raw), 255)
}

/// `r` is how the attribute's contents `raw` are understood: the limit they
/// state, or `UnexpectedSysfsValue` with the trimmed text.
pub open spec fn is_limit_reading(raw: Seq<char>, r: Result<u8, ControlError>) -> bool {
    match limit_in(raw) {
        Some(v) => r == Ok::<u8, ControlError>(v as u8),
        None => r matches Err(ControlError::UnexpectedSysfsValue(t)) && t@ == trim(raw),
    }
}

/// Reads a charge limit out of the attribute's contents.
pub fn parse_limit(raw: &str) -> (r: Result<u8, ControlError>)
    ensures
        is_limit_reading(raw@, r),
{
    let t = trim_str(raw);
    match parse_unsigned_str(t.as_str(), 255) {
        Some(v) => Ok(v as u8),
        None => Err(ControlError::UnexpectedSysfsValue(t)),
    }
}

/// What reading the attribute yields: the read's failure as `SysfsRead`,
/// or else the limit read out of its contents.
pub fn limit_from_read(read: Result<String, std::io::Error>) -> (r: Result<u8, ControlError>)
    ensures
        match read {
            Err(e) => r == Err::<u8, ControlError>(ControlError::SysfsRead(e)),
            Ok(raw) => is_limit_reading(raw@, r),
        },
{
    match read {
        Err(e) => Err(ControlError::SysfsRead(e)),
        Ok(raw) => parse_limit(raw.as_str()),
    }
}

/// The text written to the attribute for `limit`: its decimal notation.
pub fn limit_text(limit: u8) -> (r: String)
    ensures
        r@ == decimal(limit as nat),
{
    decimal_u8(limit)
}

/// Reading back what was written for a limit, whatever white space the
/// kernel adds after it, gives that limit.
pub proof fn lemma_limit_round_trip(limit: u8, trailing: Seq<char>)
    requires
        all_white(trailing),
    ensures
        limit_in(decimal(limit as nat) + trailing) == Some(limit as nat),
{
    lemma_decimal(limit as nat);
    lemma_digits_not_white(decimal(limit as nat));
    lemma_trim_word_then_white(decimal(limit as nat), trailing);
    lemma_parse_decimal(limit as nat, 255);
}

/// The charge-limit control among `candidates`: each is the attribute's
/// path inside one power-supply device, with whether that file exists, in
/// the order the devices were listed. The first that exists is chosen;
/// `None` when no device exposes the attribute (its presence depends on
/// the kernel driver and firmware, so it is found at run time).
pub fn discover_threshold_path(candidates: Vec<(String, bool)>) -> (r: Option<String>)
    ensures
        r is None <==> forall|i: int| 0 <= i < candidates@.len() ==> !(#[trigger] candidates@[i]).1,
        r is Some ==> exists|i: int|
            {
                &&& 0 <= i < candidates@.len()
                &&& (#[trigger] candidates@[i]).1
                &&& candidates@[i].0 == r->0
                &&& forall|j: int| 0 <= j < i ==> !(#[trigger] candidates@[j]).1
            },
{
    let n = candidates.len();
    let mut i: usize = 0;
    while i < n
        invariant
            i <= n == candidates@.len(),
            forall|j: int| 0 <= j < i ==> !(#[trigger] candidates@[j]).1,
        decreases n - i,
    {
        if candidates[i].1 {
            let path = candidates[i].0.clone();
            assert(candidates@[i as int].1);
            return Some(path);
        }
        i = i + 1;
    }
    None
}

/// The charge limits accepted are exactly 20 to 100, every one of them:
/// the daemon does not itself reject values that some hardware rounds to a
/// step (reading back catches that).
pub proof fn lemma_accepted_limits(limit: u8)
    ensures
        in_range(limit) <==> 20 <= limit && limit <= 100,
{
}

} // verus!
