//! The limits on what an operation may store.
//!
//! Lengths are counted in bytes of UTF-8. A batch of attributes is accepted
//! or refused as a whole; of several faults, the one that is reported is the
//! count if it is too large, and else the fault of the first faulty pair.

use vstd::prelude::*;

use crate::error::MetadataError;
use crate::state::{
    pairs_within_caps, DESCRIPTION_MAX_LEN, IMAGE_MAX_LEN, MAX_ATTRIBUTES, MAX_KEY_LENGTH,
    MAX_VALUE_LENGTH, NAME_MAX_LEN, SYMBOL_MAX_LEN,
};
use crate::wire::{option_string_view, pairs_view, utf8_len, PairView};

verus! {

/// The four text fields are within their caps.
pub open spec fn metadata_fields_ok(
    name: Seq<char>,
    symbol: Seq<char>,
    image: Seq<char>,
    description: Seq<char>,
) -> bool {
    &&& utf8_len(name) <= NAME_MAX_LEN
    &&& utf8_len(symbol) <= SYMBOL_MAX_LEN
    &&& utf8_len(image) <= IMAGE_MAX_LEN
    &&& utf8_len(description) <= DESCRIPTION_MAX_LEN
}

/// A field that is not given is in order; one that is given has to be within
/// its cap.
pub open spec fn optional_field_ok(field: Option<Seq<char>>, cap: nat) -> bool {
    field matches Some(s) ==> utf8_len(s) <= cap
}

/// The text fields that are given are within their caps.
pub open spec fn optional_metadata_fields_ok(
    name: Option<Seq<char>>,
    symbol: Option<Seq<char>>,
    image: Option<Seq<char>>,
    description: Option<Seq<char>>,
) -> bool {
    &&& optional_field_ok(name, NAME_MAX_LEN as nat)
    &&& optional_field_ok(symbol, SYMBOL_MAX_LEN as nat)
    &&& optional_field_ok(image, IMAGE_MAX_LEN as nat)
    &&& optional_field_ok(description, DESCRIPTION_MAX_LEN as nat)
}

/// What is wrong with a pair, if anything: an empty key or value, or else a
/// key or value beyond its cap.
pub open spec fn pair_error(p: PairView) -> Option<MetadataError> {
    if p.0.len() == 0 || p.1.len() == 0 {
        Some(MetadataError::InvalidInstructionData)
    } else if utf8_len(p.0) > MAX_KEY_LENGTH || utf8_len(p.1) > MAX_VALUE_LENGTH {
        Some(MetadataError::StringTooLong)
    } else {
        None
    }
}

/// What is wrong with the first faulty pair, if there is one.
pub open spec fn pairs_error(ps: Seq<PairView>) -> Option<MetadataError>
    decreases ps.len(),
{
    if ps.len() == 0 {
        None
    } else if pair_error(ps[0]) is Some {
        pair_error(ps[0])
    } else {
        pairs_error(ps.drop_first())
    }
}

/// Why a batch of attributes is refused, if it is.
pub open spec fn attributes_error(ps: Seq<PairView>) -> Option<MetadataError> {
    if ps.len() > MAX_ATTRIBUTES {
        Some(MetadataError::TooManyAttributes)
    } else {
        pairs_error(ps)
    }
}

/// The fault of the first faulty pair is reported, and none where no pair is
/// faulty.
pub proof fn lemma_pairs_error(ps: Seq<PairView>)
    ensures
        pairs_error(ps) is None <==> forall|i: int|
            0 <= i < ps.len() ==> pair_error(#[trigger] ps[i]) is None,
        pairs_error(ps) is Some ==> exists|i: int|
            0 <= i < ps.len() && pair_error(#[trigger] ps[i]) == pairs_error(ps) && forall|j: int|
                0 <= j < i ==> pair_error(#[trigger] ps[j]) is None,
    decreases ps.len(),
{
    if ps.len() == 0 {
    } else if pair_error(ps[0]) is Some {
        assert(0 <= 0 < ps.len() && pair_error(ps[0]) == pairs_error(ps));
    } else {
        let tail = ps.drop_first();
        lemma_pairs_error(tail);
        if pairs_error(tail) is None {
            assert forall|i: int| 0 <= i < ps.len() implies pair_error(#[trigger] ps[i])
                is None by {
                if i > 0 {
                    assert(ps[i] == tail[i - 1]);
                }
            }
        } else {
            let k = choose|i: int|
                0 <= i < tail.len() && pair_error(#[trigger] tail[i]) == pairs_error(tail)
                    && forall|j: int| 0 <= j < i ==> pair_error(#[trigger] tail[j]) is None;
            assert(ps[k + 1] == tail[k]);
            assert forall|j: int| 0 <= j < k + 1 implies pair_error(#[trigger] ps[j]) is None by {
                if j > 0 {
                    assert(ps[j] == tail[j - 1]);
                }
            }
            assert(0 <= k + 1 < ps.len() && pair_error(ps[k + 1]) == pairs_error(ps));
        }
    }
}

/// A batch that is not refused is within the caps of the attributes record.
pub proof fn lemma_accepted_attributes(ps: Seq<PairView>)
    requires
        attributes_error(ps) is None,
    ensures
        ps.len() <= MAX_ATTRIBUTES,
        pairs_within_caps(ps),
{
    lemma_pairs_error(ps);
    assert forall|i: int| 0 <= i < ps.len() implies utf8_len(#[trigger] ps[i].0)
        <= MAX_KEY_LENGTH && utf8_len(ps[i].1) <= MAX_VALUE_LENGTH by {
        assert(pair_error(ps[i]) is None);
    }
}

/// Number of bytes of a string.
fn byte_len(s: &str) -> (n: usize)
    ensures
        n == utf8_len(s@),
{
    s.as_bytes().len()
}

/// Accepts the four text fields of a new record when each is within its cap.
pub fn check_metadata_fields(name: &str, symbol: &str, image: &str, description: &str) -> (r:
    Result<(), MetadataError>)
    ensures
        match r {
            Ok(_) => metadata_fields_ok(name@, symbol@, image@, description@),
            Err(e) => e == MetadataError::StringTooLong && !metadata_fields_ok(
                name@,
                symbol@,
                image@,
                description@,
            ),
        },
{
    if byte_len(name) > NAME_MAX_LEN || byte_len(symbol) > SYMBOL_MAX_LEN || byte_len(image)
        > IMAGE_MAX_LEN || byte_len(description) > DESCRIPTION_MAX_LEN {
        return Err(MetadataError::StringTooLong);
    }
    Ok(())
}

/// Whether a field that may be absent is within `cap`.
fn optional_field_fits(field: &Option<String>, cap: usize) -> (b: bool)
    ensures
        b == optional_field_ok(option_string_view(*field), cap as nat),
{
    match field {
        Some(s) => byte_len(s.as_str()) <= cap,
        None => true,
    }
}

/// Accepts the text fields of a change when each field that is given is
/// within its cap.
pub fn check_optional_metadata_fields(
    name: &Option<String>,
    symbol: &Option<String>,
    image: &Option<String>,
    description: &Option<String>,
) -> (r: Result<(), MetadataError>)
    ensures
        match r {
            Ok(_) => optional_metadata_fields_ok(
                option_string_view(*name),
                option_string_view(*symbol),
                option_string_view(*image),
                option_string_view(*description),
            ),
            Err(e) => e == MetadataError::StringTooLong && !optional_metadata_fields_ok(
                option_string_view(*name),
                option_string_view(*symbol),
                option_string_view(*image),
                option_string_view(*description),
            ),
        },
{
    if !optional_field_fits(name, NAME_MAX_LEN) {
        return Err(MetadataError::StringTooLong);
    }
    if !optional_field_fits(symbol, SYMBOL_MAX_LEN) {
        return Err(MetadataError::StringTooLong);
    }
    if !optional_field_fits(image, IMAGE_MAX_LEN) {
        return Err(MetadataError::StringTooLong);
    }
    if !optional_field_fits(description, DESCRIPTION_MAX_LEN) {
        return Err(MetadataError::StringTooLong);
    }
    Ok(())
}

/// Accepts a batch of attributes when it has no more pairs than the cap, no
/// key or value is empty, and each key and value is within its cap.
pub fn check_attributes(data: &Vec<(String, String)>) -> (r: Result<(), MetadataError>)
    ensures
        match r {
            Ok(_) => attributes_error(pairs_view(data@)) is None,
            Err(e) => attributes_error(pairs_view(data@)) == Some(e),
        },
{
    let n: usize = data.len();
    if n > MAX_ATTRIBUTES {
        return Err(MetadataError::TooManyAttributes);
    }
    let ghost ps = pairs_view(data@);
    let mut i: usize = 0;
    assert(ps.skip(0) =~= ps);
    while i < n
        invariant
            i <= n,
            n == data@.len(),
            n <= MAX_ATTRIBUTES,
            ps == pairs_view(data@),
            pairs_error(ps) == pairs_error(ps.skip(i as int)),
        decreases n - i,
    {
        let k: &str = data[i].0.as_str();
        let v: &str = data[i].1.as_str();
        proof {
            let rest = ps.skip(i as int);
            assert(rest[0] == ps[i as int]);
            assert(ps[i as int] == (k@, v@));
            assert(rest.drop_first() =~= ps.skip(i + 1));
        }
        if k.is_empty() || v.is_empty() {
            return Err(MetadataError::InvalidInstructionData);
        }
        if byte_len(k) > MAX_KEY_LENGTH || byte_len(v) > MAX_VALUE_LENGTH {
            return Err(MetadataError::StringTooLong);
        }
        i += 1;
    }
    Ok(())
}

} // verus!
