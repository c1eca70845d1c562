//! The two records, their size limits and their fixed-size byte layout.
//!
//! A record is stored in an account whose size is the largest that the record
//! can ever take, so that a later change never has to grow the account. The
//! record's bytes stand at the front of the account and zero bytes fill the
//! rest. Reading stops where the record ends and ignores what follows.

use vstd::prelude::*;
use vstd::slice::*;

use crate::address::Address;
use crate::error::ProcessError;
use crate::wire::{
    encode_bool, encode_option_address, encode_pair_list, encode_pairs, encode_string, get_address, get_bool,
    get_option_address, get_pair_list, get_string, lemma_address_taken, lemma_append_assoc,
    lemma_bool_taken,
    lemma_option_address_taken, lemma_pair_list_taken, lemma_string_taken, lemma_take_address,
    lemma_take_bool,
    lemma_take_option_address, lemma_take_pair, lemma_take_pair_list, lemma_take_string,
    lemma_take_u32, option_address_view,
    pairs_fit, pairs_view, put_address, put_bool, put_option_address, put_pair_list, put_string,
    take_address, take_bool, take_option_address, take_pair_list, take_string, utf8_len,
    write_zero_padded, zero_padded, PairView,
};

verus! {

/// Maximum length of a name, in bytes.
pub const NAME_MAX_LEN: usize = 256;

/// Maximum length of a symbol, in bytes.
pub const SYMBOL_MAX_LEN: usize = 16;

/// Maximum length of an image reference, in bytes.
pub const IMAGE_MAX_LEN: usize = 512;

/// Maximum length of a description, in bytes.
pub const DESCRIPTION_MAX_LEN: usize = 512;

/// Maximum length of an attribute key, in bytes.
pub const MAX_KEY_LENGTH: usize = 64;

/// Maximum length of an attribute value, in bytes.
pub const MAX_VALUE_LENGTH: usize = 240;

/// Maximum number of attribute pairs.
pub const MAX_ATTRIBUTES: usize = 32;

/// Size of the account that holds a `TokenMetadata`: the flag, the mint, the
/// four strings at their caps with their length prefixes, and a present
/// authority.
pub const TOKEN_METADATA_MAX_LEN: usize = 1 + 32 + (4 + NAME_MAX_LEN) + (4 + SYMBOL_MAX_LEN) + (4
    + IMAGE_MAX_LEN) + (4 + DESCRIPTION_MAX_LEN) + (1 + 32);

/// Size of the account that holds a `TokenMetadataAttributes`: the flag, the
/// mint, the pair count, and the largest number of pairs at their caps.
pub const TOKEN_METADATA_ATTRIBUTES_MAX_LEN: usize = 1 + 32 + 4 + (MAX_ATTRIBUTES * ((4
    + MAX_KEY_LENGTH) + (4 + MAX_VALUE_LENGTH)));

/// The descriptive record of one mint.
#[derive(Debug, Clone, PartialEq, Eq)]
pub struct TokenMetadata {
    /// Set once the record has been created.
    pub is_initialized: bool,
    /// The mint that this record describes.
    pub mint: Address,
    /// The name of the token.
    pub name: String,
    /// The symbol of the token.
    pub symbol: String,
    /// Where the token's image is found.
    pub image: String,
    /// The description of the token.
    pub description: String,
    /// Who may change the record; `None` makes it immutable for good.
    pub update_authority: Option<Address>,
}

/// A `TokenMetadata` as a mathematical value.
pub ghost struct TokenMetadataView {
    pub is_initialized: bool,
    pub mint: Seq<u8>,
    pub name: Seq<char>,
    pub symbol: Seq<char>,
    pub image: Seq<char>,
    pub description: Seq<char>,
    pub update_authority: Option<Seq<u8>>,
}

impl TokenMetadataView {
    /// The addresses in it have 32 bytes each.
    pub open spec fn wf(self) -> bool {
        &&& self.mint.len() == 32
        &&& self.update_authority matches Some(a) ==> a.len() == 32
    }

    /// Every text field is within its cap.
    pub open spec fn within_caps(self) -> bool {
        &&& utf8_len(self.name) <= NAME_MAX_LEN
        &&& utf8_len(self.symbol) <= SYMBOL_MAX_LEN
        &&& utf8_len(self.image) <= IMAGE_MAX_LEN
        &&& utf8_len(self.description) <= DESCRIPTION_MAX_LEN
    }

    /// Every text field is short enough for its length to be written.
    pub open spec fn encodable(self) -> bool {
        &&& utf8_len(self.name) <= u32::MAX
        &&& utf8_len(self.symbol) <= u32::MAX
        &&& utf8_len(self.image) <= u32::MAX
        &&& utf8_len(self.description) <= u32::MAX
    }

    /// The record's bytes, without padding.
    pub open spec fn encode(self) -> Seq<u8> {
        encode_bool(self.is_initialized) + self.mint + encode_string(self.name) + encode_string(
            self.symbol,
        ) + encode_string(self.image) + encode_string(self.description) + encode_option_address(
            self.update_authority,
        )
    }

    /// Number of bytes of `encode`, for a record that is `wf` and `encodable`.
    pub open spec fn encoded_len(self) -> nat {
        (1 + 32 + (4 + utf8_len(self.name)) + (4 + utf8_len(self.symbol)) + (4 + utf8_len(
            self.image,
        )) + (4 + utf8_len(self.description)) + (if self.update_authority is Some {
            33int
        } else {
            1int
        })) as nat
    }
}

impl View for TokenMetadata {
    type V = TokenMetadataView;

    open spec fn view(&self) -> TokenMetadataView {
        TokenMetadataView {
            is_initialized: self.is_initialized,
            mint: self.mint@,
            name: self.name@,
            symbol: self.symbol@,
            image: self.image@,
            description: self.description@,
            update_authority: option_address_view(self.update_authority),
        }
    }
}

/// Reads a `TokenMetadata` off the front of `b`.
pub open spec fn take_metadata(b: Seq<u8>) -> Option<(TokenMetadataView, Seq<u8>)> {
    match take_bool(b) {
        Some((is_initialized, b1)) => match take_address(b1) {
            Some((mint, b2)) => match take_string(b2) {
                Some((name, b3)) => match take_string(b3) {
                    Some((symbol, b4)) => match take_string(b4) {
                        Some((image, b5)) => match take_string(b5) {
                            Some((description, b6)) => match take_option_address(b6) {
                                Some((update_authority, rest)) => Some(
                                    (
                                        TokenMetadataView {
                                            is_initialized,
                                            mint,
                                            name,
                                            symbol,
                                            image,
                                            description,
                                            update_authority,
                                        },
                                        rest,
                                    ),
                                ),
                                None => None,
                            },
                            None => None,
                        },
                        None => None,
                    },
                    None => None,
                },
                None => None,
            },
            None => None,
        },
        None => None,
    }
}

/// The record that the front of `b` encodes, whatever follows it.
pub open spec fn decode_metadata(b: Seq<u8>) -> Option<TokenMetadataView> {
    match take_metadata(b) {
        Some((m, _)) => Some(m),
        None => None,
    }
}

/// What `TokenMetadata::unpack_unchecked` returns on `b`.
pub open spec fn unpack_metadata_unchecked(b: Seq<u8>) -> Result<TokenMetadataView, ProcessError> {
    if b.len() != TOKEN_METADATA_MAX_LEN {
        Err(ProcessError::InvalidAccountData)
    } else {
        match decode_metadata(b) {
            Some(m) => Ok(m),
            None => Err(ProcessError::InvalidAccountData),
        }
    }
}

/// What `TokenMetadata::unpack` returns on `b`.
pub open spec fn unpack_metadata(b: Seq<u8>) -> Result<TokenMetadataView, ProcessError> {
    match unpack_metadata_unchecked(b) {
        Ok(m) => if m.is_initialized {
            Ok(m)
        } else {
            Err(ProcessError::UninitializedAccount)
        },
        Err(e) => Err(e),
    }
}

/// Reading back what was written gives the record, whatever bytes follow.
pub proof fn lemma_metadata_round_trip(m: TokenMetadataView, tail: Seq<u8>)
    requires
        m.wf(),
        m.encodable(),
    ensures
        m.encode().len() == m.encoded_len(),
        take_metadata(m.encode() + tail) == Some((m, tail)),
{
    let b6 = encode_option_address(m.update_authority) + tail;
    let b5 = encode_string(m.description) + b6;
    let b4 = encode_string(m.image) + b5;
    let b3 = encode_string(m.symbol) + b4;
    let b2 = encode_string(m.name) + b3;
    let b1 = m.mint + b2;
    assert(m.encode() + tail =~= encode_bool(m.is_initialized) + b1);
    lemma_take_bool(m.is_initialized, b1);
    lemma_take_address(m.mint, b2);
    lemma_take_string(m.name, b3);
    lemma_take_string(m.symbol, b4);
    lemma_take_string(m.image, b5);
    lemma_take_string(m.description, b6);
    lemma_take_option_address(m.update_authority, tail);
}

/// What was read as a record was written as that record.
pub proof fn lemma_metadata_taken(b: Seq<u8>)
    requires
        take_metadata(b) is Some,
    ensures
        take_metadata(b).unwrap().0.wf(),
        take_metadata(b).unwrap().0.encodable(),
        b == take_metadata(b).unwrap().0.encode() + take_metadata(b).unwrap().1,
{
    let m = take_metadata(b).unwrap().0;
    let rest = take_metadata(b).unwrap().1;
    let b1 = take_bool(b).unwrap().1;
    let b2 = take_address(b1).unwrap().1;
    let b3 = take_string(b2).unwrap().1;
    let b4 = take_string(b3).unwrap().1;
    let b5 = take_string(b4).unwrap().1;
    let b6 = take_string(b5).unwrap().1;
    let e1 = encode_bool(m.is_initialized);
    let e3 = encode_string(m.name);
    let e4 = encode_string(m.symbol);
    let e5 = encode_string(m.image);
    let e6 = encode_string(m.description);
    let e7 = encode_option_address(m.update_authority);
    lemma_bool_taken(b);
    lemma_address_taken(b1);
    lemma_string_taken(b2);
    lemma_string_taken(b3);
    lemma_string_taken(b4);
    lemma_string_taken(b5);
    lemma_option_address_taken(b6);
    lemma_append_assoc(e1, m.mint, b2);
    lemma_append_assoc(e1 + m.mint, e3, b3);
    lemma_append_assoc(e1 + m.mint + e3, e4, b4);
    lemma_append_assoc(e1 + m.mint + e3 + e4, e5, b5);
    lemma_append_assoc(e1 + m.mint + e3 + e4 + e5, e6, b6);
    lemma_append_assoc(e1 + m.mint + e3 + e4 + e5 + e6, e7, rest);
}

/// A record that was read from bytes takes no more bytes than there were.
pub proof fn lemma_decoded_metadata_len(b: Seq<u8>)
    requires
        decode_metadata(b) is Some,
    ensures
        decode_metadata(b).unwrap().wf(),
        decode_metadata(b).unwrap().encodable(),
        decode_metadata(b).unwrap().encode().len() == decode_metadata(b).unwrap().encoded_len(),
        decode_metadata(b).unwrap().encoded_len() <= b.len(),
{
    lemma_metadata_taken(b);
    lemma_metadata_round_trip(decode_metadata(b).unwrap(), Seq::empty());
}

/// A record within its caps fits the account made for it.
pub proof fn lemma_metadata_fits(m: TokenMetadataView)
    requires
        m.wf(),
        m.within_caps(),
    ensures
        m.encodable(),
        m.encode().len() == m.encoded_len(),
        m.encoded_len() <= TOKEN_METADATA_MAX_LEN,
{
    lemma_metadata_round_trip(m, Seq::empty());
}

impl TokenMetadata {
    /// Size of the account that holds the record.
    pub const LEN: usize = TOKEN_METADATA_MAX_LEN;

    pub fn is_initialized(&self) -> (b: bool)
        ensures
            b == self@.is_initialized,
    {
        self.is_initialized
    }

    /// The record's bytes, without padding.
    pub fn to_bytes(&self) -> (out: Vec<u8>)
        requires
            self@.encodable(),
        ensures
            out@ == self@.encode(),
    {
        let mut out: Vec<u8> = Vec::new();
        put_bool(&mut out, self.is_initialized);
        put_address(&mut out, &self.mint);
        put_string(&mut out, self.name.as_str());
        put_string(&mut out, self.symbol.as_str());
        put_string(&mut out, self.image.as_str());
        put_string(&mut out, self.description.as_str());
        put_option_address(&mut out, &self.update_authority);
        assert(out@ =~= self@.encode());
        out
    }

    /// Reads the record at the front of `src` and ignores what follows it.
    pub fn unpack_from_slice(src: &[u8]) -> (r: Result<TokenMetadata, ProcessError>)
        ensures
            match r {
                Ok(m) => decode_metadata(src@) == Some(m@),
                Err(e) => e == ProcessError::InvalidAccountData && decode_metadata(src@) is None,
            },
    {
        assert(src@.skip(0) =~= src@);
        let (is_initialized, at1) = match get_bool(src, 0) {
            Some(x) => x,
            None => {
                return Err(ProcessError::InvalidAccountData);
            },
        };
        let (mint, at2) = match get_address(src, at1) {
            Some(x) => x,
            None => {
                return Err(ProcessError::InvalidAccountData);
            },
        };
        let (name, at3) = match get_string(src, at2) {
            Some(x) => x,
            None => {
                return Err(ProcessError::InvalidAccountData);
            },
        };
        let (symbol, at4) = match get_string(src, at3) {
            Some(x) => x,
            None => {
                return Err(ProcessError::InvalidAccountData);
            },
        };
        let (image, at5) = match get_string(src, at4) {
            Some(x) => x,
            None => {
                return Err(ProcessError::InvalidAccountData);
            },
        };
        let (description, at6) = match get_string(src, at5) {
            Some(x) => x,
            None => {
                return Err(ProcessError::InvalidAccountData);
            },
        };
        let (update_authority, _at7) = match get_option_address(src, at6) {
            Some(x) => x,
            None => {
                return Err(ProcessError::InvalidAccountData);
            },
        };
        Ok(
            TokenMetadata {
                is_initialized,
                mint,
                name,
                symbol,
                image,
                description,
                update_authority,
            },
        )
    }

    /// Writes the record to the front of `dst` and zero bytes to the rest.
    pub fn pack_into_slice(&self, dst: &mut [u8])
        requires
            self@.encodable(),
            self@.encoded_len() <= old(dst)@.len(),
        ensures
            final(dst)@ == zero_padded(self@.encode(), old(dst)@.len()),
    {
        proof {
            lemma_metadata_round_trip(self@, Seq::empty());
        }
        let data = self.to_bytes();
        write_zero_padded(dst, data.as_slice());
    }

    /// Reads a record from an account of exactly the record's size.
    pub fn unpack_unchecked(input: &[u8]) -> (r: Result<TokenMetadata, ProcessError>)
        ensures
            match r {
                Ok(m) => unpack_metadata_unchecked(input@) == Ok::<
                    TokenMetadataView,
                    ProcessError,
                >(m@),
                Err(e) => unpack_metadata_unchecked(input@) == Err::<
                    TokenMetadataView,
                    ProcessError,
                >(e),
            },
    {
        if input.len() != TOKEN_METADATA_MAX_LEN {
            return Err(ProcessError::InvalidAccountData);
        }
        TokenMetadata::unpack_from_slice(input)
    }

    /// Reads a record as `unpack_unchecked` does and refuses one that has not
    /// been created.
    pub fn unpack(input: &[u8]) -> (r: Result<TokenMetadata, ProcessError>)
        ensures
            match r {
                Ok(m) => unpack_metadata(input@) == Ok::<TokenMetadataView, ProcessError>(m@),
                Err(e) => unpack_metadata(input@) == Err::<TokenMetadataView, ProcessError>(e),
            },
    {
        let value = TokenMetadata::unpack_unchecked(input)?;
        if value.is_initialized() {
            Ok(value)
        } else {
            Err(ProcessError::UninitializedAccount)
        }
    }
}

/// The free-form attributes of one mint: key and value pairs in the order in
/// which they were given. A key may occur more than once.
#[derive(Debug, Clone, PartialEq, Eq)]
pub struct TokenMetadataAttributes {
    /// Set once the record has been created.
    pub is_initialized: bool,
    /// The mint that these attributes belong to.
    pub mint: Address,
    /// The pairs.
    pub data: Vec<(String, String)>,
}

/// A `TokenMetadataAttributes` as a mathematical value.
pub ghost struct TokenMetadataAttributesView {
    pub is_initialized: bool,
    pub mint: Seq<u8>,
    pub data: Seq<PairView>,
}

/// Every key and every value is within its cap.
pub open spec fn pairs_within_caps(ps: Seq<PairView>) -> bool {
    forall|i: int|
        0 <= i < ps.len() ==> utf8_len(#[trigger] ps[i].0) <= MAX_KEY_LENGTH && utf8_len(ps[i].1)
            <= MAX_VALUE_LENGTH
}

impl TokenMetadataAttributesView {
    /// The mint has 32 bytes.
    pub open spec fn wf(self) -> bool {
        self.mint.len() == 32
    }

    /// There are no more pairs than the cap, each within its caps.
    pub open spec fn within_caps(self) -> bool {
        &&& self.data.len() <= MAX_ATTRIBUTES
        &&& pairs_within_caps(self.data)
    }

    /// The count and every length are small enough to be written.
    pub open spec fn encodable(self) -> bool {
        &&& self.data.len() <= u32::MAX
        &&& pairs_fit(self.data)
    }

    /// The record's bytes, without padding.
    pub open spec fn encode(self) -> Seq<u8> {
        encode_bool(self.is_initialized) + self.mint + encode_pair_list(self.data)
    }
}

impl View for TokenMetadataAttributes {
    type V = TokenMetadataAttributesView;

    open spec fn view(&self) -> TokenMetadataAttributesView {
        TokenMetadataAttributesView {
            is_initialized: self.is_initialized,
            mint: self.mint@,
            data: pairs_view(self.data@),
        }
    }
}

/// Reads a `TokenMetadataAttributes` off the front of `b`.
pub open spec fn take_attributes(b: Seq<u8>) -> Option<(TokenMetadataAttributesView, Seq<u8>)> {
    match take_bool(b) {
        Some((is_initialized, b1)) => match take_address(b1) {
            Some((mint, b2)) => match take_pair_list(b2) {
                Some((data, rest)) => Some(
                    (TokenMetadataAttributesView { is_initialized, mint, data }, rest),
                ),
                None => None,
            },
            None => None,
        },
        None => None,
    }
}

/// The record that the front of `b` encodes, whatever follows it.
pub open spec fn decode_attributes(b: Seq<u8>) -> Option<TokenMetadataAttributesView> {
    match take_attributes(b) {
        Some((a, _)) => Some(a),
        None => None,
    }
}

/// What `TokenMetadataAttributes::unpack_unchecked` returns on `b`.
pub open spec fn unpack_attributes_unchecked(b: Seq<u8>) -> Result<
    TokenMetadataAttributesView,
    ProcessError,
> {
    if b.len() != TOKEN_METADATA_ATTRIBUTES_MAX_LEN {
        Err(ProcessError::InvalidAccountData)
    } else {
        match decode_attributes(b) {
            Some(a) => Ok(a),
            None => Err(ProcessError::InvalidAccountData),
        }
    }
}

/// What `TokenMetadataAttributes::unpack` returns on `b`.
pub open spec fn unpack_attributes(b: Seq<u8>) -> Result<
    TokenMetadataAttributesView,
    ProcessError,
> {
    match unpack_attributes_unchecked(b) {
        Ok(a) => if a.is_initialized {
            Ok(a)
        } else {
            Err(ProcessError::UninitializedAccount)
        },
        Err(e) => Err(e),
    }
}

/// Reading back what was written gives the record, whatever bytes follow.
pub proof fn lemma_attributes_round_trip(a: TokenMetadataAttributesView, tail: Seq<u8>)
    requires
        a.wf(),
        a.encodable(),
    ensures
        take_attributes(a.encode() + tail) == Some((a, tail)),
{
    let b2 = encode_pair_list(a.data) + tail;
    let b1 = a.mint + b2;
    assert(a.encode() + tail =~= encode_bool(a.is_initialized) + b1);
    lemma_take_bool(a.is_initialized, b1);
    lemma_take_address(a.mint, b2);
    lemma_take_pair_list(a.data, tail);
}

/// What was read as a record was written as that record.
pub proof fn lemma_attributes_taken(b: Seq<u8>)
    requires
        take_attributes(b) is Some,
    ensures
        take_attributes(b).unwrap().0.wf(),
        take_attributes(b).unwrap().0.encodable(),
        b == take_attributes(b).unwrap().0.encode() + take_attributes(b).unwrap().1,
{
    lemma_bool_taken(b);
    let b1 = take_bool(b).unwrap().1;
    lemma_address_taken(b1);
    let b2 = take_address(b1).unwrap().1;
    lemma_pair_list_taken(b2);
    assert(b =~= take_attributes(b).unwrap().0.encode() + take_attributes(b).unwrap().1);
}

/// Pairs within their caps take at most 312 bytes each.
pub proof fn lemma_pairs_len(ps: Seq<PairView>)
    requires
        pairs_within_caps(ps),
    ensures
        pairs_fit(ps),
        encode_pairs(ps).len() <= ps.len() * 312,
    decreases ps.len(),
{
    if ps.len() > 0 {
        let tail = ps.drop_first();
        assert forall|i: int| 0 <= i < tail.len() implies utf8_len(#[trigger] tail[i].0)
            <= MAX_KEY_LENGTH && utf8_len(tail[i].1) <= MAX_VALUE_LENGTH by {
            assert(tail[i] == ps[i + 1]);
        }
        lemma_pairs_len(tail);
        assert(utf8_len(ps[0].0) <= MAX_KEY_LENGTH && utf8_len(ps[0].1) <= MAX_VALUE_LENGTH);
        lemma_take_pair(ps[0], Seq::empty());
    }
}

/// A record within its caps fits the account made for it.
pub proof fn lemma_attributes_fits(a: TokenMetadataAttributesView)
    requires
        a.wf(),
        a.within_caps(),
    ensures
        a.encodable(),
        a.encode().len() <= TOKEN_METADATA_ATTRIBUTES_MAX_LEN,
{
    lemma_pairs_len(a.data);
    lemma_take_u32(a.data.len() as u32, Seq::empty());
}

impl TokenMetadataAttributes {
    /// Size of the account that holds the record.
    pub const LEN: usize = TOKEN_METADATA_ATTRIBUTES_MAX_LEN;

    pub fn is_initialized(&self) -> (b: bool)
        ensures
            b == self@.is_initialized,
    {
        self.is_initialized
    }

    /// The record's bytes, without padding.
    pub fn to_bytes(&self) -> (out: Vec<u8>)
        requires
            self@.encodable(),
        ensures
            out@ == self@.encode(),
    {
        let mut out: Vec<u8> = Vec::new();
        put_bool(&mut out, self.is_initialized);
        put_address(&mut out, &self.mint);
        put_pair_list(&mut out, &self.data);
        assert(out@ =~= self@.encode());
        out
    }

    /// Reads the record at the front of `src` and ignores what follows it.
    pub fn unpack_from_slice(src: &[u8]) -> (r: Result<TokenMetadataAttributes, ProcessError>)
        ensures
            match r {
                Ok(a) => decode_attributes(src@) == Some(a@),
                Err(e) => e == ProcessError::InvalidAccountData && decode_attributes(src@)
                    is None,
            },
    {
        assert(src@.skip(0) =~= src@);
        let (is_initialized, at1) = match get_bool(src, 0) {
            Some(x) => x,
            None => {
                return Err(ProcessError::InvalidAccountData);
            },
        };
        let (mint, at2) = match get_address(src, at1) {
            Some(x) => x,
            None => {
                return Err(ProcessError::InvalidAccountData);
            },
        };
        let (data, _at3) = match get_pair_list(src, at2) {
            Some(x) => x,
            None => {
                return Err(ProcessError::InvalidAccountData);
            },
        };
        Ok(TokenMetadataAttributes { is_initialized, mint, data })
    }

    /// Writes the record to the front of `dst` and zero bytes to the rest.
    pub fn pack_into_slice(&self, dst: &mut [u8])
        requires
            self@.encodable(),
            self@.encode().len() <= old(dst)@.len(),
        ensures
            final(dst)@ == zero_padded(self@.encode(), old(dst)@.len()),
    {
        let data = self.to_bytes();
        write_zero_padded(dst, data.as_slice());
    }

    /// Reads a record from an account of exactly the record's size.
    pub fn unpack_unchecked(input: &[u8]) -> (r: Result<TokenMetadataAttributes, ProcessError>)
        ensures
            match r {
                Ok(a) => unpack_attributes_unchecked(input@) == Ok::<
                    TokenMetadataAttributesView,
                    ProcessError,
                >(a@),
                Err(e) => unpack_attributes_unchecked(input@) == Err::<
                    TokenMetadataAttributesView,
                    ProcessError,
                >(e),
            },
    {
        if input.len() != TOKEN_METADATA_ATTRIBUTES_MAX_LEN {
            return Err(ProcessError::InvalidAccountData);
        }
        TokenMetadataAttributes::unpack_from_slice(input)
    }

    /// Reads a record as `unpack_unchecked` does and refuses one that has not
    /// been created.
    pub fn unpack(input: &[u8]) -> (r: Result<TokenMetadataAttributes, ProcessError>)
        ensures
            match r {
                Ok(a) => unpack_attributes(input@) == Ok::<
                    TokenMetadataAttributesView,
                    ProcessError,
                >(a@),
                Err(e) => unpack_attributes(input@) == Err::<
                    TokenMetadataAttributesView,
                    ProcessError,
                >(e),
            },
    {
        let value = TokenMetadataAttributes::unpack_unchecked(input)?;
        if value.is_initialized() {
            Ok(value)
        } else {
            Err(ProcessError::UninitializedAccount)
        }
    }
}

} // verus!
