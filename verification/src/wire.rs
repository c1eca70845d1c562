//! The byte encoding shared by records and operations.
//!
//! Every value is written front to back with no padding between fields:
//! a `bool` is one byte (0 or 1), a `u32` is four little-endian bytes, an
//! address is its 32 bytes, a string is its UTF-8 byte count as a `u32`
//! followed by the bytes, an optional value is a tag byte (0 absent,
//! 1 present) followed by the value when present, and a list is its element
//! count as a `u32` followed by the elements.
//!
//! The `encode_*` functions give the bytes of a value. The `take_*` functions
//! read one value off the front of a byte sequence and return it with the
//! bytes that follow, or `None` when the front is no encoding of such a value.

use vstd::bytes::*;
use vstd::prelude::*;
use vstd::slice::*;
use vstd::utf8::*;

use crate::address::Address;

verus! {

/// A key and its value, as sequences of characters.
pub type PairView = (Seq<char>, Seq<char>);

/// The key of a pair.
pub open spec fn pair_key(p: PairView) -> Seq<char> {
    p.0
}

/// The value of a pair.
pub open spec fn pair_value(p: PairView) -> Seq<char> {
    p.1
}

/// Number of bytes that the UTF-8 form of `s` takes.
pub open spec fn utf8_len(s: Seq<char>) -> nat {
    encode_utf8(s).len()
}

pub open spec fn encode_bool(b: bool) -> Seq<u8> {
    seq![if b { 1u8 } else { 0u8 }]
}

pub open spec fn encode_u32(n: u32) -> Seq<u8> {
    spec_u32_to_le_bytes(n)
}

pub open spec fn encode_string(s: Seq<char>) -> Seq<u8> {
    encode_u32(utf8_len(s) as u32) + encode_utf8(s)
}

pub open spec fn encode_option_string(s: Option<Seq<char>>) -> Seq<u8> {
    match s {
        None => seq![0u8],
        Some(t) => seq![1u8] + encode_string(t),
    }
}

pub open spec fn encode_option_address(a: Option<Seq<u8>>) -> Seq<u8> {
    match a {
        None => seq![0u8],
        Some(b) => seq![1u8] + b,
    }
}

pub open spec fn encode_pair(p: PairView) -> Seq<u8> {
    encode_string(p.0) + encode_string(p.1)
}

/// The pairs one after the other, without a count in front.
pub open spec fn encode_pairs(ps: Seq<PairView>) -> Seq<u8>
    decreases ps.len(),
{
    if ps.len() == 0 {
        Seq::empty()
    } else {
        encode_pair(ps[0]) + encode_pairs(ps.drop_first())
    }
}

pub open spec fn encode_pair_list(ps: Seq<PairView>) -> Seq<u8> {
    encode_u32(ps.len() as u32) + encode_pairs(ps)
}

pub open spec fn take_bool(b: Seq<u8>) -> Option<(bool, Seq<u8>)> {
    if b.len() >= 1 && b[0] == 0 {
        Some((false, b.skip(1)))
    } else if b.len() >= 1 && b[0] == 1 {
        Some((true, b.skip(1)))
    } else {
        None
    }
}

pub open spec fn take_u8(b: Seq<u8>) -> Option<(u8, Seq<u8>)> {
    if b.len() >= 1 {
        Some((b[0], b.skip(1)))
    } else {
        None
    }
}

pub open spec fn take_u32(b: Seq<u8>) -> Option<(u32, Seq<u8>)> {
    if b.len() >= 4 {
        Some((spec_u32_from_le_bytes(b.take(4)), b.skip(4)))
    } else {
        None
    }
}

pub open spec fn take_address(b: Seq<u8>) -> Option<(Seq<u8>, Seq<u8>)> {
    if b.len() >= 32 {
        Some((b.take(32), b.skip(32)))
    } else {
        None
    }
}

pub open spec fn take_string(b: Seq<u8>) -> Option<(Seq<char>, Seq<u8>)> {
    match take_u32(b) {
        Some((n, rest)) => if n <= rest.len() && valid_utf8(rest.take(n as int)) {
            Some((decode_utf8(rest.take(n as int)), rest.skip(n as int)))
        } else {
            None
        },
        None => None,
    }
}

pub open spec fn take_option_string(b: Seq<u8>) -> Option<(Option<Seq<char>>, Seq<u8>)> {
    match take_bool(b) {
        Some((false, rest)) => Some((None, rest)),
        Some((true, rest)) => match take_string(rest) {
            Some((s, after)) => Some((Some(s), after)),
            None => None,
        },
        None => None,
    }
}

pub open spec fn take_option_address(b: Seq<u8>) -> Option<(Option<Seq<u8>>, Seq<u8>)> {
    match take_bool(b) {
        Some((false, rest)) => Some((None, rest)),
        Some((true, rest)) => match take_address(rest) {
            Some((a, after)) => Some((Some(a), after)),
            None => None,
        },
        None => None,
    }
}

pub open spec fn take_pair(b: Seq<u8>) -> Option<(PairView, Seq<u8>)> {
    match take_string(b) {
        Some((k, rest)) => match take_string(rest) {
            Some((v, after)) => Some(((k, v), after)),
            None => None,
        },
        None => None,
    }
}

/// Reads `n` pairs, one after the other.
pub open spec fn take_pairs(b: Seq<u8>, n: nat) -> Option<(Seq<PairView>, Seq<u8>)>
    decreases n,
{
    if n == 0 {
        Some((Seq::empty(), b))
    } else {
        match take_pair(b) {
            Some((p, rest)) => match take_pairs(rest, (n - 1) as nat) {
                Some((ps, after)) => Some((seq![p] + ps, after)),
                None => None,
            },
            None => None,
        }
    }
}

pub open spec fn take_pair_list(b: Seq<u8>) -> Option<(Seq<PairView>, Seq<u8>)> {
    match take_u32(b) {
        Some((n, rest)) => take_pairs(rest, n as nat),
        None => None,
    }
}

/// The list of pairs that a vector of owned strings stands for.
pub open spec fn pairs_view(v: Seq<(String, String)>) -> Seq<PairView> {
    Seq::new(v.len(), |i: int| (v[i].0@, v[i].1@))
}

pub open spec fn option_string_view(s: Option<String>) -> Option<Seq<char>> {
    match s {
        None => None,
        Some(t) => Some(t@),
    }
}

pub open spec fn option_address_view(a: Option<Address>) -> Option<Seq<u8>> {
    match a {
        None => None,
        Some(b) => Some(b@),
    }
}

pub proof fn lemma_take_bool(v: bool, rest: Seq<u8>)
    ensures
        take_bool(encode_bool(v) + rest) == Some((v, rest)),
{
    assert((encode_bool(v) + rest).skip(1) =~= rest);
}

pub proof fn lemma_take_u8(v: u8, rest: Seq<u8>)
    ensures
        take_u8(seq![v] + rest) == Some((v, rest)),
{
    assert((seq![v] + rest).skip(1) =~= rest);
}

pub proof fn lemma_take_u32(v: u32, rest: Seq<u8>)
    ensures
        encode_u32(v).len() == 4,
        take_u32(encode_u32(v) + rest) == Some((v, rest)),
{
    lemma_auto_spec_u32_to_from_le_bytes();
    let b = encode_u32(v) + rest;
    assert(b.take(4) =~= encode_u32(v));
    assert(b.skip(4) =~= rest);
}

pub proof fn lemma_take_address(a: Seq<u8>, rest: Seq<u8>)
    requires
        a.len() == 32,
    ensures
        take_address(a + rest) == Some((a, rest)),
{
    assert((a + rest).take(32) =~= a);
    assert((a + rest).skip(32) =~= rest);
}

pub proof fn lemma_take_string(s: Seq<char>, rest: Seq<u8>)
    requires
        utf8_len(s) <= u32::MAX,
    ensures
        encode_string(s).len() == 4 + utf8_len(s),
        take_string(encode_string(s) + rest) == Some((s, rest)),
{
    let n = utf8_len(s) as u32;
    let body = encode_utf8(s) + rest;
    lemma_take_u32(n, body);
    assert(encode_string(s) + rest =~= encode_u32(n) + body);
    assert(body.take(n as int) =~= encode_utf8(s));
    assert(body.skip(n as int) =~= rest);
    encode_utf8_valid_utf8(s);
    encode_utf8_decode_utf8(s);
}

pub proof fn lemma_take_option_string(s: Option<Seq<char>>, rest: Seq<u8>)
    requires
        s matches Some(t) ==> utf8_len(t) <= u32::MAX,
    ensures
        take_option_string(encode_option_string(s) + rest) == Some((s, rest)),
{
    match s {
        None => {
            lemma_take_bool(false, rest);
            assert(encode_option_string(s) + rest =~= encode_bool(false) + rest);
        },
        Some(t) => {
            lemma_take_bool(true, encode_string(t) + rest);
            assert(encode_option_string(s) + rest =~= encode_bool(true) + (encode_string(t)
                + rest));
            lemma_take_string(t, rest);
        },
    }
}

pub proof fn lemma_take_option_address(a: Option<Seq<u8>>, rest: Seq<u8>)
    requires
        a matches Some(b) ==> b.len() == 32,
    ensures
        take_option_address(encode_option_address(a) + rest) == Some((a, rest)),
{
    match a {
        None => {
            lemma_take_bool(false, rest);
            assert(encode_option_address(a) + rest =~= encode_bool(false) + rest);
        },
        Some(b) => {
            lemma_take_bool(true, b + rest);
            assert(encode_option_address(a) + rest =~= encode_bool(true) + (b + rest));
            lemma_take_address(b, rest);
        },
    }
}

pub proof fn lemma_take_pair(p: PairView, rest: Seq<u8>)
    requires
        utf8_len(p.0) <= u32::MAX,
        utf8_len(p.1) <= u32::MAX,
    ensures
        encode_pair(p).len() == 8 + utf8_len(p.0) + utf8_len(p.1),
        take_pair(encode_pair(p) + rest) == Some((p, rest)),
{
    lemma_take_string(p.0, encode_string(p.1) + rest);
    lemma_take_string(p.1, rest);
    assert(encode_pair(p) + rest =~= encode_string(p.0) + (encode_string(p.1) + rest));
}

pub proof fn lemma_take_pairs(ps: Seq<PairView>, rest: Seq<u8>)
    requires
        forall|i: int|
            0 <= i < ps.len() ==> utf8_len(#[trigger] ps[i].0) <= u32::MAX && utf8_len(ps[i].1)
                <= u32::MAX,
    ensures
        take_pairs(encode_pairs(ps) + rest, ps.len()) == Some((ps, rest)),
    decreases ps.len(),
{
    if ps.len() == 0 {
        assert(encode_pairs(ps) + rest =~= rest);
        assert(ps =~= Seq::empty());
    } else {
        let tail = ps.drop_first();
        assert forall|i: int| 0 <= i < tail.len() implies utf8_len(#[trigger] tail[i].0)
            <= u32::MAX && utf8_len(tail[i].1) <= u32::MAX by {
            assert(tail[i] == ps[i + 1]);
        }
        lemma_take_pair(ps[0], encode_pairs(tail) + rest);
        lemma_take_pairs(tail, rest);
        assert(encode_pairs(ps) + rest =~= encode_pair(ps[0]) + (encode_pairs(tail) + rest));
        assert(seq![ps[0]] + tail =~= ps);
    }
}

pub proof fn lemma_take_pair_list(ps: Seq<PairView>, rest: Seq<u8>)
    requires
        ps.len() <= u32::MAX,
        forall|i: int|
            0 <= i < ps.len() ==> utf8_len(#[trigger] ps[i].0) <= u32::MAX && utf8_len(ps[i].1)
                <= u32::MAX,
    ensures
        take_pair_list(encode_pair_list(ps) + rest) == Some((ps, rest)),
{
    lemma_take_u32(ps.len() as u32, encode_pairs(ps) + rest);
    lemma_take_pairs(ps, rest);
    assert(encode_pair_list(ps) + rest =~= encode_u32(ps.len() as u32) + (encode_pairs(ps)
        + rest));
}

/// Encoding a list that grew by one pair appends that pair's bytes.
pub proof fn lemma_encode_pairs_push(ps: Seq<PairView>, p: PairView)
    ensures
        encode_pairs(ps.push(p)) == encode_pairs(ps) + encode_pair(p),
    decreases ps.len(),
{
    if ps.len() == 0 {
        assert(ps.push(p).drop_first() =~= Seq::<PairView>::empty());
        assert(encode_pairs(ps.push(p)) =~= encode_pair(p) + encode_pairs(Seq::empty()));
        assert(encode_pairs(ps.push(p)) =~= encode_pairs(ps) + encode_pair(p));
    } else {
        lemma_encode_pairs_push(ps.drop_first(), p);
        assert(ps.push(p).drop_first() =~= ps.drop_first().push(p));
        assert(encode_pairs(ps.push(p)) =~= encode_pairs(ps) + encode_pair(p));
    }
}

/// Appending in two steps is appending the two parts joined.
pub proof fn lemma_append_assoc(a: Seq<u8>, b: Seq<u8>, c: Seq<u8>)
    ensures
        a + (b + c) == (a + b) + c,
{
    assert(a + (b + c) =~= (a + b) + c);
}

/// What was read as a byte was written as one.
pub proof fn lemma_u8_taken(b: Seq<u8>)
    requires
        take_u8(b) is Some,
    ensures
        b == seq![take_u8(b).unwrap().0] + take_u8(b).unwrap().1,
{
    assert(b =~= seq![take_u8(b).unwrap().0] + take_u8(b).unwrap().1);
}

/// What was read as a `bool` was written as one.
pub proof fn lemma_bool_taken(b: Seq<u8>)
    requires
        take_bool(b) is Some,
    ensures
        b == encode_bool(take_bool(b).unwrap().0) + take_bool(b).unwrap().1,
{
    assert(b =~= encode_bool(take_bool(b).unwrap().0) + take_bool(b).unwrap().1);
}

/// What was read as a `u32` was written as one.
pub proof fn lemma_u32_taken(b: Seq<u8>)
    requires
        take_u32(b) is Some,
    ensures
        b == encode_u32(take_u32(b).unwrap().0) + take_u32(b).unwrap().1,
{
    lemma_auto_spec_u32_to_from_le_bytes();
    assert(b =~= b.take(4) + b.skip(4));
}

/// What was read as an address has 32 bytes and was written as they are.
pub proof fn lemma_address_taken(b: Seq<u8>)
    requires
        take_address(b) is Some,
    ensures
        take_address(b).unwrap().0.len() == 32,
        b == take_address(b).unwrap().0 + take_address(b).unwrap().1,
{
    assert(b =~= b.take(32) + b.skip(32));
}

/// What was read as a string was written as one, with a length that fits.
pub proof fn lemma_string_taken(b: Seq<u8>)
    requires
        take_string(b) is Some,
    ensures
        utf8_len(take_string(b).unwrap().0) <= u32::MAX,
        b == encode_string(take_string(b).unwrap().0) + take_string(b).unwrap().1,
{
    lemma_u32_taken(b);
    let n = take_u32(b).unwrap().0;
    let body = take_u32(b).unwrap().1;
    decode_utf8_encode_utf8(body.take(n as int));
    assert(body =~= body.take(n as int) + body.skip(n as int));
    assert(b =~= encode_string(take_string(b).unwrap().0) + take_string(b).unwrap().1);
}

/// What was read as an optional string was written as one.
pub proof fn lemma_option_string_taken(b: Seq<u8>)
    requires
        take_option_string(b) is Some,
    ensures
        take_option_string(b).unwrap().0 matches Some(t) ==> utf8_len(t) <= u32::MAX,
        b == encode_option_string(take_option_string(b).unwrap().0) + take_option_string(b).unwrap().1,
{
    lemma_bool_taken(b);
    let rest = take_bool(b).unwrap().1;
    if take_bool(b).unwrap().0 {
        lemma_string_taken(rest);
    }
    assert(b =~= encode_option_string(take_option_string(b).unwrap().0) + take_option_string(b).unwrap().1);
}

/// What was read as an optional address was written as one.
pub proof fn lemma_option_address_taken(b: Seq<u8>)
    requires
        take_option_address(b) is Some,
    ensures
        take_option_address(b).unwrap().0 matches Some(a) ==> a.len() == 32,
        b == encode_option_address(take_option_address(b).unwrap().0) + take_option_address(b).unwrap().1,
{
    lemma_bool_taken(b);
    let rest = take_bool(b).unwrap().1;
    if take_bool(b).unwrap().0 {
        lemma_address_taken(rest);
    }
    assert(b =~= encode_option_address(take_option_address(b).unwrap().0) + take_option_address(
        b,
    ).unwrap().1);
}

/// What was read as a pair was written as one.
pub proof fn lemma_pair_taken(b: Seq<u8>)
    requires
        take_pair(b) is Some,
    ensures
        utf8_len(pair_key(take_pair(b).unwrap().0)) <= u32::MAX,
        utf8_len(pair_value(take_pair(b).unwrap().0)) <= u32::MAX,
        b == encode_pair(take_pair(b).unwrap().0) + take_pair(b).unwrap().1,
{
    lemma_string_taken(b);
    lemma_string_taken(take_string(b).unwrap().1);
    assert(b =~= encode_pair(take_pair(b).unwrap().0) + take_pair(b).unwrap().1);
}

/// What was read as `n` pairs was written as `n` pairs.
pub proof fn lemma_pairs_taken(b: Seq<u8>, n: nat)
    requires
        take_pairs(b, n) is Some,
    ensures
        take_pairs(b, n).unwrap().0.len() == n,
        pairs_fit(take_pairs(b, n).unwrap().0),
        b == encode_pairs(take_pairs(b, n).unwrap().0) + take_pairs(b, n).unwrap().1,
    decreases n,
{
    let ps = take_pairs(b, n).unwrap().0;
    let rest = take_pairs(b, n).unwrap().1;
    if n == 0 {
        assert(b =~= encode_pairs(ps) + rest);
    } else {
        lemma_pair_taken(b);
        let p = take_pair(b).unwrap().0;
        let mid = take_pair(b).unwrap().1;
        lemma_pairs_taken(mid, (n - 1) as nat);
        let tail = take_pairs(mid, (n - 1) as nat).unwrap().0;
        assert(ps =~= seq![p] + tail);
        assert(ps.drop_first() =~= tail);
        assert forall|i: int| 0 <= i < ps.len() implies utf8_len(#[trigger] ps[i].0) <= u32::MAX
            && utf8_len(ps[i].1) <= u32::MAX by {
            if i > 0 {
                assert(ps[i] == tail[i - 1]);
            }
        }
        assert(b =~= encode_pairs(ps) + rest);
    }
}

/// What was read as a list of pairs was written as one.
pub proof fn lemma_pair_list_taken(b: Seq<u8>)
    requires
        take_pair_list(b) is Some,
    ensures
        take_pair_list(b).unwrap().0.len() <= u32::MAX,
        pairs_fit(take_pair_list(b).unwrap().0),
        b == encode_pair_list(take_pair_list(b).unwrap().0) + take_pair_list(b).unwrap().1,
{
    lemma_u32_taken(b);
    let n = take_u32(b).unwrap().0;
    lemma_pairs_taken(take_u32(b).unwrap().1, n as nat);
    assert(b =~= encode_pair_list(take_pair_list(b).unwrap().0) + take_pair_list(b).unwrap().1);
}

/// `String::from_utf8` of std: the bytes become a string exactly when they are
/// valid UTF-8, and the string then holds the characters that they encode.
#[verifier::external_body]
fn string_from_utf8(bytes: Vec<u8>) -> (r: Option<String>)
    ensures
        r is Some <==> valid_utf8(bytes@),
        r matches Some(s) ==> s@ == decode_utf8(bytes@),
{
    String::from_utf8(bytes).ok()
}

/// Appends `src` to `out`.
pub fn put_bytes(out: &mut Vec<u8>, src: &[u8])
    ensures
        final(out)@ == old(out)@ + src@,
{
    let n: usize = src.len();
    let mut i: usize = 0;
    while i < n
        invariant
            i <= n,
            n == src@.len(),
            out@ == old(out)@ + src@.take(i as int),
        decreases n - i,
    {
        out.push(src[i]);
        i += 1;
        assert(src@.take(i as int) =~= src@.take(i - 1).push(src@[i - 1]));
    }
    assert(src@.take(n as int) =~= src@);
}

pub fn put_bool(out: &mut Vec<u8>, b: bool)
    ensures
        final(out)@ == old(out)@ + encode_bool(b),
{
    if b {
        out.push(1u8);
    } else {
        out.push(0u8);
    }
    assert(out@ =~= old(out)@ + encode_bool(b));
}

pub fn put_u32(out: &mut Vec<u8>, n: u32)
    ensures
        final(out)@ == old(out)@ + encode_u32(n),
{
    let b = u32_to_le_bytes(n);
    put_bytes(out, b.as_slice());
}

pub fn put_address(out: &mut Vec<u8>, a: &Address)
    ensures
        final(out)@ == old(out)@ + a@,
{
    put_bytes(out, a.bytes.as_slice());
}

pub fn put_string(out: &mut Vec<u8>, s: &str)
    requires
        utf8_len(s@) <= u32::MAX,
    ensures
        final(out)@ == old(out)@ + encode_string(s@),
{
    let b = s.as_bytes();
    put_u32(out, b.len() as u32);
    put_bytes(out, b);
    assert(out@ =~= old(out)@ + encode_string(s@));
}

pub fn put_option_string(out: &mut Vec<u8>, s: &Option<String>)
    requires
        s matches Some(t) ==> utf8_len(t@) <= u32::MAX,
    ensures
        final(out)@ == old(out)@ + encode_option_string(option_string_view(*s)),
{
    match s {
        None => {
            out.push(0u8);
        },
        Some(t) => {
            out.push(1u8);
            put_string(out, t.as_str());
        },
    }
    assert(out@ =~= old(out)@ + encode_option_string(option_string_view(*s)));
}

pub fn put_option_address(out: &mut Vec<u8>, a: &Option<Address>)
    ensures
        final(out)@ == old(out)@ + encode_option_address(option_address_view(*a)),
{
    match a {
        None => {
            out.push(0u8);
        },
        Some(b) => {
            out.push(1u8);
            put_address(out, b);
        },
    }
    assert(out@ =~= old(out)@ + encode_option_address(option_address_view(*a)));
}

/// Whether every key and value is short enough for its length to be written
/// as a `u32`.
pub open spec fn pairs_fit(ps: Seq<PairView>) -> bool {
    forall|i: int|
        0 <= i < ps.len() ==> utf8_len(#[trigger] ps[i].0) <= u32::MAX && utf8_len(ps[i].1)
            <= u32::MAX
}

pub fn put_pair_list(out: &mut Vec<u8>, data: &Vec<(String, String)>)
    requires
        data@.len() <= u32::MAX,
        pairs_fit(pairs_view(data@)),
    ensures
        final(out)@ == old(out)@ + encode_pair_list(pairs_view(data@)),
{
    let n: usize = data.len();
    put_u32(out, n as u32);
    let ghost ps = pairs_view(data@);
    let mut i: usize = 0;
    while i < n
        invariant
            i <= n,
            n == data@.len(),
            n <= u32::MAX,
            ps == pairs_view(data@),
            pairs_fit(ps),
            out@ == old(out)@ + encode_u32(n as u32) + encode_pairs(ps.take(i as int)),
        decreases n - i,
    {
        let ghost before = out@;
        assert(utf8_len(ps[i as int].0) <= u32::MAX && utf8_len(ps[i as int].1) <= u32::MAX);
        put_string(out, data[i].0.as_str());
        put_string(out, data[i].1.as_str());
        proof {
            lemma_encode_pairs_push(ps.take(i as int), ps[i as int]);
            assert(ps.take(i + 1) =~= ps.take(i as int).push(ps[i as int]));
            assert(out@ =~= before + encode_pair(ps[i as int]));
        }
        i += 1;
    }
    assert(ps.take(n as int) =~= ps);
}

pub fn get_bool(buf: &[u8], pos: usize) -> (r: Option<(bool, usize)>)
    requires
        pos <= buf@.len(),
    ensures
        match r {
            Some((v, next)) => pos <= next <= buf@.len() && take_bool(buf@.skip(pos as int))
                == Some((v, buf@.skip(next as int))),
            None => take_bool(buf@.skip(pos as int)) is None,
        },
{
    if pos >= buf.len() {
        return None;
    }
    let b: u8 = buf[pos];
    assert(buf@.skip(pos as int)[0] == b);
    assert(buf@.skip(pos as int).skip(1) =~= buf@.skip(pos + 1));
    if b == 0 {
        Some((false, pos + 1))
    } else if b == 1 {
        Some((true, pos + 1))
    } else {
        None
    }
}

pub fn get_u8(buf: &[u8], pos: usize) -> (r: Option<(u8, usize)>)
    requires
        pos <= buf@.len(),
    ensures
        match r {
            Some((v, next)) => pos <= next <= buf@.len() && take_u8(buf@.skip(pos as int))
                == Some((v, buf@.skip(next as int))),
            None => take_u8(buf@.skip(pos as int)) is None,
        },
{
    if pos >= buf.len() {
        return None;
    }
    let b: u8 = buf[pos];
    assert(buf@.skip(pos as int)[0] == b);
    assert(buf@.skip(pos as int).skip(1) =~= buf@.skip(pos + 1));
    Some((b, pos + 1))
}

pub fn get_u32(buf: &[u8], pos: usize) -> (r: Option<(u32, usize)>)
    requires
        pos <= buf@.len(),
    ensures
        match r {
            Some((v, next)) => pos <= next <= buf@.len() && take_u32(buf@.skip(pos as int))
                == Some((v, buf@.skip(next as int))),
            None => take_u32(buf@.skip(pos as int)) is None,
        },
{
    if buf.len() - pos < 4 {
        return None;
    }
    let v: u32 = u32_from_le_bytes(slice_subrange(buf, pos, pos + 4));
    assert(buf@.skip(pos as int).take(4) =~= buf@.subrange(pos as int, pos + 4));
    assert(buf@.skip(pos as int).skip(4) =~= buf@.skip(pos + 4));
    Some((v, pos + 4))
}

pub fn get_address(buf: &[u8], pos: usize) -> (r: Option<(Address, usize)>)
    requires
        pos <= buf@.len(),
    ensures
        match r {
            Some((v, next)) => pos <= next <= buf@.len() && take_address(buf@.skip(pos as int))
                == Some((v@, buf@.skip(next as int))),
            None => take_address(buf@.skip(pos as int)) is None,
        },
{
    if buf.len() - pos < 32 {
        return None;
    }
    let mut bytes: [u8; 32] = [0u8; 32];
    let mut i: usize = 0;
    while i < 32
        invariant
            i <= 32,
            pos + 32 <= buf.len(),
            forall|j: int| 0 <= j < i ==> bytes@[j] == buf@[pos + j],
        decreases 32 - i,
    {
        bytes[i] = buf[pos + i];
        i += 1;
    }
    assert(bytes@ =~= buf@.skip(pos as int).take(32));
    assert(buf@.skip(pos as int).skip(32) =~= buf@.skip(pos + 32));
    Some((Address { bytes }, pos + 32))
}

pub fn get_string(buf: &[u8], pos: usize) -> (r: Option<(String, usize)>)
    requires
        pos <= buf@.len(),
    ensures
        match r {
            Some((v, next)) => pos <= next <= buf@.len() && take_string(buf@.skip(pos as int))
                == Some((v@, buf@.skip(next as int))),
            None => take_string(buf@.skip(pos as int)) is None,
        },
{
    let (n, start) = match get_u32(buf, pos) {
        Some(x) => x,
        None => {
            return None;
        },
    };
    let len: usize = n as usize;
    if buf.len() - start < len {
        return None;
    }
    let bytes = slice_to_vec(slice_subrange(buf, start, start + len));
    assert(bytes@ =~= buf@.skip(start as int).take(n as int));
    assert(buf@.skip(start as int).skip(n as int) =~= buf@.skip(start + len));
    match string_from_utf8(bytes) {
        Some(s) => Some((s, start + len)),
        None => None,
    }
}

pub fn get_option_string(buf: &[u8], pos: usize) -> (r: Option<(Option<String>, usize)>)
    requires
        pos <= buf@.len(),
    ensures
        match r {
            Some((v, next)) => pos <= next <= buf@.len() && take_option_string(
                buf@.skip(pos as int),
            ) == Some((option_string_view(v), buf@.skip(next as int))),
            None => take_option_string(buf@.skip(pos as int)) is None,
        },
{
    match get_bool(buf, pos) {
        None => None,
        Some((false, next)) => Some((None, next)),
        Some((true, next)) => match get_string(buf, next) {
            Some((s, after)) => Some((Some(s), after)),
            None => None,
        },
    }
}

pub fn get_option_address(buf: &[u8], pos: usize) -> (r: Option<(Option<Address>, usize)>)
    requires
        pos <= buf@.len(),
    ensures
        match r {
            Some((v, next)) => pos <= next <= buf@.len() && take_option_address(
                buf@.skip(pos as int),
            ) == Some((option_address_view(v), buf@.skip(next as int))),
            None => take_option_address(buf@.skip(pos as int)) is None,
        },
{
    match get_bool(buf, pos) {
        None => None,
        Some((false, next)) => Some((None, next)),
        Some((true, next)) => match get_address(buf, next) {
            Some((a, after)) => Some((Some(a), after)),
            None => None,
        },
    }
}

/// What reading `n` more pairs gives once `acc` has been read.
pub open spec fn take_pairs_after(acc: Seq<PairView>, b: Seq<u8>, n: nat) -> Option<
    (Seq<PairView>, Seq<u8>),
> {
    match take_pairs(b, n) {
        Some((ps, rest)) => Some((acc + ps, rest)),
        None => None,
    }
}

pub fn get_pair_list(buf: &[u8], pos: usize) -> (r: Option<(Vec<(String, String)>, usize)>)
    requires
        pos <= buf@.len(),
    ensures
        match r {
            Some((v, next)) => pos <= next <= buf@.len() && take_pair_list(
                buf@.skip(pos as int),
            ) == Some((pairs_view(v@), buf@.skip(next as int))),
            None => take_pair_list(buf@.skip(pos as int)) is None,
        },
{
    let (n, start) = match get_u32(buf, pos) {
        Some(x) => x,
        None => {
            return None;
        },
    };
    let ghost whole = take_pairs(buf@.skip(start as int), n as nat);
    let mut out: Vec<(String, String)> = Vec::new();
    let mut cur: usize = start;
    let mut i: u32 = 0;
    assert(pairs_view(out@) =~= Seq::<PairView>::empty());
    while i < n
        invariant
            i <= n,
            start <= cur <= buf@.len(),
            out@.len() == i,
            whole == take_pair_list(buf@.skip(pos as int)),
            whole == take_pairs_after(pairs_view(out@), buf@.skip(cur as int), (n - i) as nat),
        decreases n - i,
    {
        let ghost acc = pairs_view(out@);
        let (k, mid) = match get_string(buf, cur) {
            Some(x) => x,
            None => {
                return None;
            },
        };
        let (v, after) = match get_string(buf, mid) {
            Some(x) => x,
            None => {
                return None;
            },
        };
        proof {
            let p: PairView = (k@, v@);
            assert(take_pair(buf@.skip(cur as int)) == Some((p, buf@.skip(after as int))));
            match take_pairs(buf@.skip(after as int), (n - i - 1) as nat) {
                Some((ps, rest)) => {
                    assert(acc + (seq![p] + ps) =~= acc.push(p) + ps);
                },
                None => {},
            }
        }
        out.push((k, v));
        assert(pairs_view(out@) =~= acc.push((k@, v@)));
        cur = after;
        i += 1;
    }
    assert(pairs_view(out@) + Seq::<PairView>::empty() =~= pairs_view(out@));
    Some((out, cur))
}

/// `bytes` followed by as many zero bytes as it takes to reach `len` bytes.
pub open spec fn zero_padded(bytes: Seq<u8>, len: nat) -> Seq<u8> {
    bytes + Seq::new((len - bytes.len()) as nat, |i: int| 0u8)
}

/// Overwrites the whole of `dst`: `src` at the front, zero bytes after it.
pub fn write_zero_padded(dst: &mut [u8], src: &[u8])
    requires
        src@.len() <= old(dst)@.len(),
    ensures
        final(dst)@ == zero_padded(src@, old(dst)@.len()),
{
    let n: usize = dst.len();
    let m: usize = src.len();
    let mut i: usize = 0;
    while i < n
        invariant
            i <= n,
            m <= n,
            n == dst@.len(),
            m == src@.len(),
            forall|j: int| 0 <= j < i && j < m ==> dst@[j] == src@[j],
            forall|j: int| m <= j < i ==> dst@[j] == 0,
        decreases n - i,
    {
        if i < m {
            dst[i] = src[i];
        } else {
            dst[i] = 0;
        }
        i += 1;
    }
    assert(dst@ =~= zero_padded(src@, n as nat));
}

} // verus!
