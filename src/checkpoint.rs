//! The persisted checkpoint: the last block height whose processing is
//! complete, kept as JSON text under a single key of the message sink.
use crate::text::{all_digits, digits_value, is_digit};
use vstd::prelude::*;

verus! {

/// The sink key under which the checkpoint is stored.
pub const BLOCK_HEIGHT: &'static str = "block_height";

#[verifier::external_type_specification]
#[verifier::external_body]
pub struct ExJsonError(serde_json::Error);

/// Whitespace that JSON allows around a value.
pub open spec fn is_json_space(c: char) -> bool {
    c == ' ' || c == '\n' || c == '\t' || c == '\r'
}

pub open spec fn all_json_space(s: Seq<char>) -> bool {
    forall|i: int| 0 <= i < s.len() ==> is_json_space(#[trigger] s[i])
}

/// Digits with no leading zero, except for the number zero itself.
pub open spec fn is_canonical_decimal(s: Seq<char>) -> bool {
    s.len() > 0 && all_digits(s) && (s.len() == 1 || s[0] != '0')
}

/// `s[i..j]` is the canonical decimal of `v`, with only JSON whitespace around it.
pub open spec fn json_u64_at(s: Seq<char>, i: int, j: int, v: u64) -> bool {
    &&& 0 <= i <= j <= s.len()
    &&& all_json_space(s.take(i))
    &&& all_json_space(s.skip(j))
    &&& is_canonical_decimal(s.subrange(i, j))
    &&& digits_value(s.subrange(i, j)) == v
}

/// `s` is a JSON document that holds the unsigned 64-bit integer `v`.
pub open spec fn is_json_u64(s: Seq<char>, v: u64) -> bool {
    exists|i: int, j: int| #[trigger] json_u64_at(s, i, j, v)
}

/// `s` is a JSON document that holds some unsigned 64-bit integer.
pub open spec fn is_json_u64_text(s: Seq<char>) -> bool {
    exists|v: u64| is_json_u64(s, v)
}

/// The checkpoint reads as height `h`: an absent record reads as zero, a
/// present one as the integer its JSON text holds.
pub open spec fn checkpoint_holds(stored: Option<Seq<char>>, h: u64) -> bool {
    match stored {
        None => h == 0,
        Some(s) => is_json_u64(s, h),
    }
}

pub open spec fn stored_view(stored: Option<String>) -> Option<Seq<char>> {
    match stored {
        None => None,
        Some(s) => Some(s@),
    }
}

/// The stored checkpoint text is not an unsigned 64-bit JSON integer.
#[derive(Debug)]
pub enum CheckpointError {
    Corrupt { raw: String },
}

/// Relies on serde_json::from_str::<u64>: it accepts exactly a canonical
/// decimal that fits in 64 bits, with optional JSON whitespace around it,
/// and fails on anything else (signs, fractions, exponents, other values).
#[verifier::external_body]
fn json_to_u64(s: &str) -> (r: Result<u64, serde_json::Error>)
    ensures
        r matches Ok(v) ==> is_json_u64(s@, v),
        r is Err ==> !is_json_u64_text(s@),
{
    serde_json::from_str::<u64>(s)
}

/// Relies on serde_json::to_string for a `u64`: it never fails, and writes
/// the canonical decimal of the value.
#[verifier::external_body]
fn u64_to_json(v: u64) -> (r: Result<String, serde_json::Error>)
    ensures
        r is Ok,
        r matches Ok(t) ==> is_canonical_decimal(t@) && digits_value(t@) == v,
{
    serde_json::to_string(&v)
}

/// Decodes the checkpoint record fetched from the sink: absent means no
/// block has been synced yet (height 0); text that is not an unsigned JSON
/// integer is reported as corrupt rather than read as zero.
pub fn get_synced_block_height(stored: Option<String>) -> (r: Result<u64, CheckpointError>)
    ensures
        forall|h: u64|
            #![trigger checkpoint_holds(stored_view(stored), h)]
            (r == Ok::<u64, CheckpointError>(h)) <==> checkpoint_holds(stored_view(stored), h),
        r is Err <==> forall|h: u64| !checkpoint_holds(stored_view(stored), h),
        r matches Err(CheckpointError::Corrupt { raw }) ==> stored == Some(raw),
{
    match stored {
        None => {
            assert(checkpoint_holds(stored_view(stored), 0));
            Ok(0)
        },
        Some(s) => {
            match json_to_u64(s.as_str()) {
                Ok(h) => {
                    assert(checkpoint_holds(stored_view(stored), h));
                    assert forall|g: u64| checkpoint_holds(stored_view(stored), g) implies g == h by {
                        lemma_json_u64_unique(s@, g, h);
                    }
                    Ok(h)
                },
                Err(_) => Err(CheckpointError::Corrupt { raw: s }),
            }
        },
    }
}

/// Encodes `height` as the text to store under [`BLOCK_HEIGHT`].
pub fn update_synced_block_height(height: u64) -> (r: String)
    ensures
        is_canonical_decimal(r@),
        digits_value(r@) == height,
{
    match u64_to_json(height) {
        Ok(t) => t,
        Err(_) => {
            assert(false);
            String::new()
        },
    }
}

/// JSON text holds at most one unsigned integer.
pub proof fn lemma_json_u64_unique(s: Seq<char>, a: u64, b: u64)
    requires
        is_json_u64(s, a),
        is_json_u64(s, b),
    ensures
        a == b,
{
    let (i1, j1) = choose|i: int, j: int| #[trigger] json_u64_at(s, i, j, a);
    let (i2, j2) = choose|i: int, j: int| #[trigger] json_u64_at(s, i, j, b);
    if i1 < i2 {
        assert(is_json_space(s.take(i2)[i1]));
        assert(is_digit(s.subrange(i1, j1)[0]));
    }
    if i2 < i1 {
        assert(is_json_space(s.take(i1)[i2]));
        assert(is_digit(s.subrange(i2, j2)[0]));
    }
    if j1 < j2 {
        assert(is_json_space(s.skip(j1)[0]));
        assert(is_digit(s.subrange(i2, j2)[j1 - i2]));
    }
    if j2 < j1 {
        assert(is_json_space(s.skip(j2)[0]));
        assert(is_digit(s.subrange(i1, j1)[j2 - i1]));
    }
}

/// Writing a height and reading it back yields that height: the text stored
/// for `h` reads as `h` and as no other height.
pub proof fn lemma_checkpoint_round_trip(h: u64, stored: Seq<char>)
    requires
        is_canonical_decimal(stored),
        digits_value(stored) == h,
    ensures
        forall|g: u64| checkpoint_holds(Some(stored), g) <==> g == h,
{
    assert(stored.take(0) =~= Seq::<char>::empty());
    assert(stored.skip(stored.len() as int) =~= Seq::<char>::empty());
    assert(stored.subrange(0, stored.len() as int) =~= stored);
    assert(json_u64_at(stored, 0, stored.len() as int, h));
    assert forall|g: u64| checkpoint_holds(Some(stored), g) implies g == h by {
        let (i, j) = choose|i: int, j: int| #[trigger] json_u64_at(stored, i, j, g);
        if i > 0 {
            assert(is_json_space(stored.take(i)[0]));
            assert(is_digit(stored[0]));
        }
        if j < stored.len() {
            assert(is_json_space(stored.skip(j)[0]));
            assert(is_digit(stored[j]));
        }
        assert(stored.subrange(i, j) =~= stored);
    }
}

/// Stored text that holds no digit at all never reads as a height, so the
/// read reports it as corrupt.
pub proof fn lemma_non_numeric_checkpoint_is_corrupt(stored: Seq<char>)
    requires
        forall|i: int| 0 <= i < stored.len() ==> !is_digit(#[trigger] stored[i]),
    ensures
        forall|g: u64| !checkpoint_holds(Some(stored), g),
{
    assert forall|g: u64| !checkpoint_holds(Some(stored), g) by {
        if checkpoint_holds(Some(stored), g) {
            let (i, j) = choose|i: int, j: int| #[trigger] json_u64_at(stored, i, j, g);
            assert(is_digit(stored.subrange(i, j)[0]));
            assert(stored.subrange(i, j)[0] == stored[i]);
        }
    }
}

} // verus!
