//! The word codec: text of at most 24 bytes to and from the ledger's 32-byte word.
//!
//! A word is four field elements. The text's UTF-8 bytes fill the front of a zeroed
//! 32-byte buffer, the last byte of the buffer holds their number, and each run of
//! eight bytes, read big-endian, becomes one field.

use crate::felt::{canonical, MODULUS};
use crate::text::{string_from_utf8, string_from_utf8_lossy, utf8_lossy};
use vstd::prelude::*;
use vstd::string::StringSliceAdditionalSpecFns;
use vstd::utf8::*;

verus! {

/// Number of bytes that a word holds.
pub const WORD_BYTES: usize = 32;

/// Largest number of UTF-8 bytes that a text may have to fit into a word.
pub const MAX_TEXT_BYTES: usize = 24;

/// Number of fields of a word.
pub const WORD_FIELDS: usize = 4;

/// The 32-byte buffer made of `text`: the text, zeros, and the text's length last.
pub open spec fn padded_bytes(text: Seq<u8>) -> Seq<u8> {
    Seq::new(
        32,
        |i: int|
            if i < text.len() {
                text[i]
            } else if i == 31 {
                text.len() as u8
            } else {
                0u8
            },
    )
}

/// The number that eight bytes spell, most significant byte first.
pub open spec fn be_value(b: Seq<u8>) -> int {
    b[0] * 0x100_0000_0000_0000 + b[1] * 0x1_0000_0000_0000 + b[2] * 0x100_0000_0000 + b[3]
        * 0x1_0000_0000 + b[4] * 0x100_0000 + b[5] * 0x1_0000 + b[6] * 0x100 + b[7]
}

/// The eight bytes of `value`, most significant byte first.
pub open spec fn be_bytes(value: u64) -> Seq<u8> {
    seq![
        (value / 0x100_0000_0000_0000) as u8,
        (value / 0x1_0000_0000_0000 % 0x100) as u8,
        (value / 0x100_0000_0000 % 0x100) as u8,
        (value / 0x1_0000_0000 % 0x100) as u8,
        (value / 0x100_0000 % 0x100) as u8,
        (value / 0x1_0000 % 0x100) as u8,
        (value / 0x100 % 0x100) as u8,
        (value % 0x100) as u8,
    ]
}

/// Field `i` of the word that a 32-byte buffer spells: its `i`-th run of eight bytes as
/// a field element.
pub open spec fn field_of_bytes(bytes: Seq<u8>, i: int) -> u64 {
    (be_value(bytes.subrange(8 * i, 8 * i + 8)) % (MODULUS as int)) as u64
}

/// The fields of the word that a 32-byte buffer spells.
pub open spec fn fields_of_bytes(bytes: Seq<u8>) -> Seq<u64> {
    Seq::new(4, |i: int| field_of_bytes(bytes, i))
}

/// The 32 bytes that the fields of a word spell, in field order.
pub open spec fn bytes_of_fields(fields: Seq<u64>) -> Seq<u8> {
    be_bytes(fields[0]) + be_bytes(fields[1]) + be_bytes(fields[2]) + be_bytes(fields[3])
}

/// The fields of the word that encodes `text`. Meant for texts of at most 24 bytes.
pub open spec fn encode_text(text: Seq<char>) -> Seq<u64> {
    fields_of_bytes(padded_bytes(encode_utf8(text)))
}

/// The length that a word announces: the last byte of its fourth field.
pub open spec fn stored_len(fields: Seq<u64>) -> int {
    (fields[3] % 0x100) as int
}

/// The bytes that a word holds for its text: its 32 bytes cut to the announced length.
/// An announced length above 32 leaves all 32 bytes.
pub open spec fn text_bytes(fields: Seq<u64>) -> Seq<u8> {
    let n = stored_len(fields);
    bytes_of_fields(fields).take(if n <= 32 { n } else { 32 })
}

/// The text that a word decodes to: its text bytes read as UTF-8, strictly where they
/// are well-formed and lossily where they are not.
pub open spec fn decode_fields(fields: Seq<u64>) -> Seq<char> {
    let bytes = text_bytes(fields);
    if valid_utf8(bytes) {
        decode_utf8(bytes)
    } else {
        utf8_lossy(bytes)
    }
}

/// Four values are the fields of a word when each lies below the field modulus.
pub open spec fn canonical_fields(fields: Seq<u64>) -> bool {
    &&& fields.len() == 4
    &&& forall|i: int| 0 <= i < 4 ==> #[trigger] fields[i] < MODULUS
}

/// The ledger's native 32-byte unit: four ordered field elements, held as their
/// canonical integers.
#[derive(Clone, Copy, Debug, PartialEq, Eq)]
pub struct Word {
    fields: [u64; 4],
}

/// Why a text has no word: its UTF-8 form is longer than 24 bytes.
#[derive(Clone, Copy, Debug, PartialEq, Eq)]
pub struct EncodingError {
    /// Number of UTF-8 bytes of the rejected text.
    pub length: usize,
}

impl View for Word {
    type V = Seq<u64>;

    closed spec fn view(&self) -> Seq<u64> {
        self.fields@
    }
}

impl Word {
    #[verifier::type_invariant]
    spec fn holds_field_elements(self) -> bool {
        canonical_fields(self.fields@)
    }

    /// The word of four values, each reduced into the field as the ledger does.
    pub fn new(values: [u64; 4]) -> (w: Word)
        ensures
            w@ == Seq::new(4, |i: int| (values[i] % MODULUS) as u64),
            canonical_fields(w@),
    {
        let w = Word {
            fields: [
                canonical(values[0]),
                canonical(values[1]),
                canonical(values[2]),
                canonical(values[3]),
            ],
        };
        assert(w@ =~= Seq::new(4, |i: int| (values[i] % MODULUS) as u64));
        w
    }

    /// The four fields as integers, in order.
    pub fn fields(&self) -> (values: [u64; 4])
        ensures
            values@ == self@,
            canonical_fields(self@),
    {
        proof {
            use_type_invariant(self);
        }
        self.fields
    }

    /// The length that the word announces for its text.
    pub fn text_len(&self) -> (n: u8)
        ensures
            n == stored_len(self@),
    {
        (self.fields[3] % 0x100) as u8
    }
}

/// The number that the eight bytes from `start` spell, most significant byte first.
fn read_be(bytes: &Vec<u8>, start: usize) -> (value: u64)
    requires
        start + 8 <= bytes.len(),
    ensures
        value == be_value(bytes@.subrange(start as int, start + 8)),
{
    let ghost run = bytes@.subrange(start as int, start + 8);
    assert(forall|k: int| 0 <= k < 8 ==> run[k] == bytes[start + k]);
    let b0 = bytes[start] as u64;
    let b1 = bytes[start + 1] as u64;
    let b2 = bytes[start + 2] as u64;
    let b3 = bytes[start + 3] as u64;
    let b4 = bytes[start + 4] as u64;
    let b5 = bytes[start + 5] as u64;
    let b6 = bytes[start + 6] as u64;
    let b7 = bytes[start + 7] as u64;
    b0 * 0x100_0000_0000_0000 + b1 * 0x1_0000_0000_0000 + b2 * 0x100_0000_0000 + b3
        * 0x1_0000_0000 + b4 * 0x100_0000 + b5 * 0x1_0000 + b6 * 0x100 + b7
}

/// Appends the eight bytes of `value` to `out`, most significant byte first.
fn write_be(out: &mut Vec<u8>, value: u64)
    ensures
        final(out)@ == old(out)@ + be_bytes(value),
{
    out.push((value / 0x100_0000_0000_0000) as u8);
    out.push((value / 0x1_0000_0000_0000 % 0x100) as u8);
    out.push((value / 0x100_0000_0000 % 0x100) as u8);
    out.push((value / 0x1_0000_0000 % 0x100) as u8);
    out.push((value / 0x100_0000 % 0x100) as u8);
    out.push((value / 0x1_0000 % 0x100) as u8);
    out.push((value / 0x100 % 0x100) as u8);
    out.push((value % 0x100) as u8);
    assert(out@ =~= old(out)@ + be_bytes(value));
}

/// Encodes a text as a word.
///
/// Succeeds exactly on texts of at most 24 UTF-8 bytes, with the word that
/// [`encode_text`] describes; a longer text is rejected with its length.
pub fn str_to_word(s: &str) -> (r: Result<Word, EncodingError>)
    ensures
        s.spec_bytes().len() <= MAX_TEXT_BYTES ==> r is Ok && r->Ok_0@ == encode_text(s@),
        s.spec_bytes().len() > MAX_TEXT_BYTES ==> r == Err::<Word, EncodingError>(
            EncodingError { length: s.spec_bytes().len() as usize },
        ),
{
    let bytes = s.as_bytes();
    let n = bytes.len();
    if n > MAX_TEXT_BYTES {
        return Err(EncodingError { length: n });
    }
    let mut padded: Vec<u8> = Vec::new();
    let mut i: usize = 0;
    while i < WORD_BYTES
        invariant
            i <= 32,
            n == bytes@.len(),
            n <= 24,
            padded@ == padded_bytes(bytes@).take(i as int),
        decreases 32 - i,
    {
        let b: u8 = if i < n {
            bytes[i]
        } else if i == WORD_BYTES - 1 {
            n as u8
        } else {
            0
        };
        padded.push(b);
        i += 1;
        assert(padded@ =~= padded_bytes(bytes@).take(i as int));
    }
    assert(padded@ =~= padded_bytes(bytes@));
    let mut fields: Vec<u64> = Vec::new();
    let mut k: usize = 0;
    while k < WORD_FIELDS
        invariant
            k <= 4,
            padded@.len() == 32,
            fields@ == fields_of_bytes(padded@).take(k as int),
        decreases 4 - k,
    {
        let value = read_be(&padded, k * 8);
        fields.push(canonical(value));
        k += 1;
        assert(fields@ =~= fields_of_bytes(padded@).take(k as int));
    }
    let w = Word { fields: [fields[0], fields[1], fields[2], fields[3]] };
    assert(w@ =~= encode_text(s@));
    Ok(w)
}

/// Decodes a word to the text it holds.
///
/// Reads the announced length from the last byte of the fourth field, cuts the word's
/// 32 bytes to it, and reads them as UTF-8; bytes that are not well-formed UTF-8 are
/// decoded lossily and never refused.
pub fn word_to_str(w: Word) -> (s: String)
    ensures
        s@ == decode_fields(w@),
{
    let len = w.text_len() as usize;
    let mut bytes: Vec<u8> = Vec::with_capacity(WORD_BYTES);
    let mut k: usize = 0;
    let ghost spelt = bytes_of_fields(w@);
    while k < WORD_FIELDS
        invariant
            k <= 4,
            w@.len() == 4,
            spelt == bytes_of_fields(w@),
            bytes@ == spelt.take(8 * k),
        decreases 4 - k,
    {
        write_be(&mut bytes, w.fields[k]);
        k += 1;
        assert(bytes@ =~= spelt.take(8 * k));
    }
    assert(bytes@ =~= spelt);
    bytes.truncate(len);
    assert(bytes@ =~= text_bytes(w@));
    match string_from_utf8(bytes) {
        Ok(text) => text,
        Err(raw) => string_from_utf8_lossy(raw.as_slice()),
    }
}

/// The bytes of the sum of eight bytes, each at its place, are those bytes.
proof fn lemma_join(b0: u8, b1: u8, b2: u8, b3: u8, b4: u8, b5: u8, b6: u8, b7: u8, v: u64)
    by (bit_vector)
    requires
        v == b0 * 0x100_0000_0000_0000 + b1 * 0x1_0000_0000_0000 + b2 * 0x100_0000_0000 + b3
            * 0x1_0000_0000 + b4 * 0x100_0000 + b5 * 0x1_0000 + b6 * 0x100 + b7,
    ensures
        v / 0x100_0000_0000_0000 == b0,
        v / 0x1_0000_0000_0000 % 0x100 == b1,
        v / 0x100_0000_0000 % 0x100 == b2,
        v / 0x1_0000_0000 % 0x100 == b3,
        v / 0x100_0000 % 0x100 == b4,
        v / 0x1_0000 % 0x100 == b5,
        v / 0x100 % 0x100 == b6,
        v % 0x100 == b7,
{
}

/// Eight bytes spell a number that fits a field's 64 bits, and that number's bytes are
/// the eight bytes again.
pub proof fn lemma_bytes_of_value(b: Seq<u8>)
    requires
        b.len() == 8,
    ensures
        0 <= be_value(b) <= u64::MAX,
        be_bytes(be_value(b) as u64) == b,
{
    let v = be_value(b) as u64;
    lemma_join(b[0], b[1], b[2], b[3], b[4], b[5], b[6], b[7], v);
    assert(be_bytes(v) =~= b);
}

/// No byte of a scalar's UTF-8 form reaches `0xf8`.
proof fn lemma_scalar_bytes_bound(scalar: u32)
    by (bit_vector)
    requires
        is_scalar(scalar),
    ensures
        leading_byte_width_1(scalar) < 0xf8,
        leading_byte_width_2(scalar) < 0xf8,
        leading_byte_width_3(scalar) < 0xf8,
        leading_byte_width_4(scalar) < 0xf8,
        last_continuation_byte(scalar) < 0xf8,
        second_last_continuation_byte(scalar) < 0xf8,
        third_last_continuation_byte(scalar) < 0xf8,
{
}

/// No byte of a text's UTF-8 form reaches `0xf8`.
pub proof fn lemma_utf8_bytes_bound(text: Seq<char>)
    ensures
        forall|i: int| 0 <= i < encode_utf8(text).len() ==> #[trigger] encode_utf8(text)[i] < 0xf8,
    decreases text.len(),
{
    if text.len() > 0 {
        let head = encode_scalar(text[0] as u32);
        let tail = encode_utf8(text.drop_first());
        char_is_scalar(text[0]);
        lemma_scalar_bytes_bound(text[0] as u32);
        lemma_utf8_bytes_bound(text.drop_first());
        assert forall|i: int| 0 <= i < encode_utf8(text).len() implies #[trigger] encode_utf8(
            text,
        )[i] < 0xf8 by {
            if i >= head.len() {
                assert(encode_utf8(text)[i] == tail[i - head.len()]);
            } else {
                assert(encode_utf8(text)[i] == head[i]);
            }
        }
    }
}

/// Eight bytes whose first is below `0xf8` spell a number below the field modulus.
proof fn lemma_run_below_modulus(run: Seq<u8>)
    requires
        run.len() == 8,
        run[0] < 0xf8,
    ensures
        0 <= be_value(run) < MODULUS,
{
}

/// A field of the word of a text that fits spells the eight buffer bytes it was made
/// of: nothing is lost to the field's modulus.
proof fn lemma_encoded_field(text: Seq<char>, i: int)
    requires
        encode_utf8(text).len() <= MAX_TEXT_BYTES,
        0 <= i < 4,
    ensures
        field_of_bytes(padded_bytes(encode_utf8(text)), i) < MODULUS,
        be_bytes(field_of_bytes(padded_bytes(encode_utf8(text)), i)) == padded_bytes(
            encode_utf8(text),
        ).subrange(8 * i, 8 * i + 8),
{
    let bytes = encode_utf8(text);
    let padded = padded_bytes(bytes);
    let run = padded.subrange(8 * i, 8 * i + 8);
    lemma_utf8_bytes_bound(text);
    assert(run[0] == padded[8 * i]);
    assert(run[0] < 0xf8) by {
        if 8 * i < bytes.len() {
            assert(padded[8 * i] == bytes[8 * i]);
        }
    }
    lemma_run_below_modulus(run);
    lemma_bytes_of_value(run);
    vstd::arithmetic::div_mod::lemma_small_mod(be_value(run) as nat, MODULUS as nat);
}

/// The word of a text that fits: its fields are field elements, together they spell
/// the padded buffer, and the word announces the text's length.
pub proof fn lemma_encoded_word(text: Seq<char>)
    requires
        encode_utf8(text).len() <= MAX_TEXT_BYTES,
    ensures
        canonical_fields(encode_text(text)),
        bytes_of_fields(encode_text(text)) == padded_bytes(encode_utf8(text)),
        stored_len(encode_text(text)) == encode_utf8(text).len(),
{
    let bytes = encode_utf8(text);
    let padded = padded_bytes(bytes);
    let fields = encode_text(text);
    lemma_encoded_field(text, 0);
    lemma_encoded_field(text, 1);
    lemma_encoded_field(text, 2);
    lemma_encoded_field(text, 3);
    assert(bytes_of_fields(fields) =~= padded);
    assert(be_bytes(fields[3])[7] == padded[31]);
}

/// Round trip: a text of at most 24 UTF-8 bytes is what its word decodes to.
pub proof fn lemma_round_trip(text: Seq<char>)
    requires
        encode_utf8(text).len() <= MAX_TEXT_BYTES,
    ensures
        decode_fields(encode_text(text)) == text,
{
    let bytes = encode_utf8(text);
    lemma_encoded_word(text);
    assert(text_bytes(encode_text(text)) =~= bytes);
    encode_utf8_valid_utf8(text);
    encode_utf8_decode_utf8(text);
}

/// Distinct texts that fit have distinct words: a word names one text at most.
pub proof fn lemma_words_name_one_text(a: Seq<char>, b: Seq<char>)
    requires
        encode_utf8(a).len() <= MAX_TEXT_BYTES,
        encode_utf8(b).len() <= MAX_TEXT_BYTES,
        encode_text(a) == encode_text(b),
    ensures
        a == b,
{
    lemma_round_trip(a);
    lemma_round_trip(b);
}

/// The empty text has the all-zero word, which announces length 0 and decodes to the
/// empty text.
pub proof fn lemma_empty_text()
    ensures
        encode_text(Seq::<char>::empty()) == seq![0u64, 0u64, 0u64, 0u64],
        stored_len(encode_text(Seq::<char>::empty())) == 0,
        decode_fields(encode_text(Seq::<char>::empty())) == Seq::<char>::empty(),
{
    let text = Seq::<char>::empty();
    assert(encode_utf8(text) =~= Seq::<u8>::empty());
    lemma_round_trip(text);
    lemma_encoded_word(text);
    let padded = padded_bytes(encode_utf8(text));
    assert forall|i: int| 0 <= i < 4 implies field_of_bytes(padded, i) == 0 by {
        let run = padded.subrange(8 * i, 8 * i + 8);
        assert(forall|k: int| 0 <= k < 8 ==> run[k] == padded[8 * i + k]);
    }
    assert(encode_text(text) =~= seq![0u64, 0u64, 0u64, 0u64]);
}


} // verus!
