//! Wire encoding of the individual fields a packet payload is made of.
//!
//! Integers are little-endian, text is UTF-8 followed by a zero byte, optional
//! values carry a one-byte presence tag (0 absent, 1 present), and lists carry
//! a `u16` item count. Every encoding is self-delimiting, so a payload is just
//! its fields one after the other.

use vstd::prelude::*;
use vstd::utf8::*;

verus! {

broadcast use {encode_utf8_valid_utf8, encode_utf8_decode_utf8};

/// Why a payload or a frame could not be decoded.
#[derive(Clone, Copy, Debug, PartialEq, Eq, Structural)]
pub enum DecodeError {
    /// The input ended before the value was complete.
    Truncated,
    /// A value was complete but not one the format allows.
    Malformed,
    /// Bytes were left over after the last field.
    TrailingBytes,
    /// The packet's command is not one this protocol knows.
    UnknownCommand(u16),
}

/// Why a set of fields could not be encoded.
#[derive(Clone, Copy, Debug, PartialEq, Eq, Structural)]
pub enum EncodeError {
    /// A text's UTF-8 form holds a zero byte, which would end it early.
    ZeroByteInText,
    /// A list holds more items than its `u16` count can say.
    TooManyItems,
}

/// The kinds of field a payload can hold.
#[derive(Clone, Copy, Debug, PartialEq, Eq, Structural)]
pub enum FieldKind {
    U8,
    U16,
    U32,
    U64,
    Text,
    OptionalU16,
    OptionalText,
    U16List,
}

/// One field of a payload.
#[derive(Clone, Debug)]
pub enum Field {
    U8(u8),
    U16(u16),
    U32(u32),
    U64(u64),
    Text(String),
    OptionalU16(Option<u16>),
    OptionalText(Option<String>),
    U16List(Vec<u16>),
}

/// What a [`Field`] holds, as mathematical values.
pub enum FieldView {
    U8(u8),
    U16(u16),
    U32(u32),
    U64(u64),
    Text(Seq<char>),
    OptionalU16(Option<u16>),
    OptionalText(Option<Seq<char>>),
    U16List(Seq<u16>),
}

pub open spec fn option_text_view(o: Option<String>) -> Option<Seq<char>> {
    match o {
        Some(s) => Some(s@),
        None => None,
    }
}

impl View for Field {
    type V = FieldView;

    open spec fn view(&self) -> FieldView {
        match self {
            Field::U8(x) => FieldView::U8(*x),
            Field::U16(x) => FieldView::U16(*x),
            Field::U32(x) => FieldView::U32(*x),
            Field::U64(x) => FieldView::U64(*x),
            Field::Text(s) => FieldView::Text(s@),
            Field::OptionalU16(o) => FieldView::OptionalU16(*o),
            Field::OptionalText(o) => FieldView::OptionalText(option_text_view(*o)),
            Field::U16List(v) => FieldView::U16List(v@),
        }
    }
}

pub open spec fn fields_view(fs: Seq<Field>) -> Seq<FieldView> {
    fs.map_values(|f: Field| f@)
}

pub open spec fn kind_of(f: FieldView) -> FieldKind {
    match f {
        FieldView::U8(_) => FieldKind::U8,
        FieldView::U16(_) => FieldKind::U16,
        FieldView::U32(_) => FieldKind::U32,
        FieldView::U64(_) => FieldKind::U64,
        FieldView::Text(_) => FieldKind::Text,
        FieldView::OptionalU16(_) => FieldKind::OptionalU16,
        FieldView::OptionalText(_) => FieldKind::OptionalText,
        FieldView::U16List(_) => FieldKind::U16List,
    }
}

pub open spec fn kinds_of(fs: Seq<FieldView>) -> Seq<FieldKind> {
    fs.map_values(|f: FieldView| kind_of(f))
}

/// No byte of `b` is zero.
pub open spec fn no_zero_byte(b: Seq<u8>) -> bool {
    forall|i: int| 0 <= i < b.len() ==> b[i] != 0
}

/// A text can be sent when its UTF-8 form holds no zero byte.
pub open spec fn text_wf(t: Seq<char>) -> bool {
    no_zero_byte(encode_utf8(t))
}

pub open spec fn field_wf(f: FieldView) -> bool {
    match f {
        FieldView::Text(t) => text_wf(t),
        FieldView::OptionalText(Some(t)) => text_wf(t),
        FieldView::U16List(v) => v.len() <= u16::MAX,
        _ => true,
    }
}

pub open spec fn fields_wf(fs: Seq<FieldView>) -> bool {
    forall|i: int| 0 <= i < fs.len() ==> #[trigger] field_wf(fs[i])
}

// ---------------------------------------------------------------------------
// Encoding
/// The two bytes of a `u16`, low byte first.
pub open spec fn u16_le(v: u16) -> Seq<u8> {
    seq![(v % 256) as u8, (v / 256) as u8]
}

/// The four bytes of a `u32`, low byte first.
pub open spec fn u32_le(v: u32) -> Seq<u8> {
    u16_le((v % 65536) as u16) + u16_le((v / 65536) as u16)
}

/// The eight bytes of a `u64`, low byte first.
pub open spec fn u64_le(v: u64) -> Seq<u8> {
    u32_le((v % 0x1_0000_0000) as u32) + u32_le((v / 0x1_0000_0000) as u32)
}

/// A text: its UTF-8 bytes, then a zero byte.
pub open spec fn encode_text(t: Seq<char>) -> Seq<u8> {
    encode_utf8(t).push(0)
}

/// The items of a list, without their count.
pub open spec fn encode_items(v: Seq<u16>) -> Seq<u8>
    decreases v.len(),
{
    if v.len() == 0 {
        seq![]
    } else {
        encode_items(v.drop_last()) + u16_le(v.last())
    }
}

pub open spec fn encode_field(f: FieldView) -> Seq<u8> {
    match f {
        FieldView::U8(x) => seq![x],
        FieldView::U16(x) => u16_le(x),
        FieldView::U32(x) => u32_le(x),
        FieldView::U64(x) => u64_le(x),
        FieldView::Text(t) => encode_text(t),
        FieldView::OptionalU16(None) => seq![0u8],
        FieldView::OptionalU16(Some(x)) => seq![1u8] + u16_le(x),
        FieldView::OptionalText(None) => seq![0u8],
        FieldView::OptionalText(Some(t)) => seq![1u8] + encode_text(t),
        FieldView::U16List(v) => u16_le(v.len() as u16) + encode_items(v),
    }
}

/// A payload: its fields one after the other.
pub open spec fn encode_fields(fs: Seq<FieldView>) -> Seq<u8>
    decreases fs.len(),
{
    if fs.len() == 0 {
        seq![]
    } else {
        encode_fields(fs.drop_last()) + encode_field(fs.last())
    }
}

// ---------------------------------------------------------------------------
// Decoding: each parser takes the remaining input and returns the value read
// with the input that follows it.
pub open spec fn parse_u8(s: Seq<u8>) -> Result<(u8, Seq<u8>), DecodeError> {
    if s.len() >= 1 {
        Ok((s[0], s.skip(1)))
    } else {
        Err(DecodeError::Truncated)
    }
}

pub open spec fn parse_u16(s: Seq<u8>) -> Result<(u16, Seq<u8>), DecodeError> {
    if s.len() >= 2 {
        Ok(((s[0] + 256 * s[1]) as u16, s.skip(2)))
    } else {
        Err(DecodeError::Truncated)
    }
}

pub open spec fn parse_u32(s: Seq<u8>) -> Result<(u32, Seq<u8>), DecodeError> {
    if s.len() >= 4 {
        Ok(((s[0] + 256 * s[1] + 65536 * (s[2] + 256 * s[3])) as u32, s.skip(4)))
    } else {
        Err(DecodeError::Truncated)
    }
}

pub open spec fn parse_u64(s: Seq<u8>) -> Result<(u64, Seq<u8>), DecodeError> {
    if s.len() >= 8 {
        let lo = s[0] + 256 * s[1] + 65536 * (s[2] + 256 * s[3]);
        let hi = s[4] + 256 * s[5] + 65536 * (s[6] + 256 * s[7]);
        Ok(((lo + 0x1_0000_0000 * hi) as u64, s.skip(8)))
    } else {
        Err(DecodeError::Truncated)
    }
}

/// `z` is the position of the first zero byte of `s`.
pub open spec fn first_zero_at(s: Seq<u8>, z: int) -> bool {
    &&& 0 <= z < s.len()
    &&& s[z] == 0
    &&& no_zero_byte(s.take(z))
}

pub open spec fn parse_text(s: Seq<u8>) -> Result<(Seq<char>, Seq<u8>), DecodeError> {
    if exists|z: int| first_zero_at(s, z) {
        let z = choose|z: int| first_zero_at(s, z);
        if valid_utf8(s.take(z)) {
            Ok((decode_utf8(s.take(z)), s.skip(z + 1)))
        } else {
            Err(DecodeError::Malformed)
        }
    } else {
        Err(DecodeError::Truncated)
    }
}

pub open spec fn parse_items(n: nat, s: Seq<u8>) -> Result<(Seq<u16>, Seq<u8>), DecodeError>
    decreases n,
{
    if n == 0 {
        Ok((seq![], s))
    } else {
        match parse_items((n - 1) as nat, s) {
            Err(e) => Err(e),
            Ok((v, r)) => match parse_u16(r) {
                Err(e) => Err(e),
                Ok((x, r2)) => Ok((v.push(x), r2)),
            },
        }
    }
}

pub open spec fn parse_field(k: FieldKind, s: Seq<u8>) -> Result<(FieldView, Seq<u8>), DecodeError> {
    match k {
        FieldKind::U8 => match parse_u8(s) {
            Ok((x, r)) => Ok((FieldView::U8(x), r)),
            Err(e) => Err(e),
        },
        FieldKind::U16 => match parse_u16(s) {
            Ok((x, r)) => Ok((FieldView::U16(x), r)),
            Err(e) => Err(e),
        },
        FieldKind::U32 => match parse_u32(s) {
            Ok((x, r)) => Ok((FieldView::U32(x), r)),
            Err(e) => Err(e),
        },
        FieldKind::U64 => match parse_u64(s) {
            Ok((x, r)) => Ok((FieldView::U64(x), r)),
            Err(e) => Err(e),
        },
        FieldKind::Text => match parse_text(s) {
            Ok((t, r)) => Ok((FieldView::Text(t), r)),
            Err(e) => Err(e),
        },
        FieldKind::OptionalU16 => match parse_u8(s) {
            Err(e) => Err(e),
            Ok((tag, r)) => if tag == 0 {
                Ok((FieldView::OptionalU16(None), r))
            } else if tag == 1 {
                match parse_u16(r) {
                    Ok((x, r2)) => Ok((FieldView::OptionalU16(Some(x)), r2)),
                    Err(e) => Err(e),
                }
            } else {
                Err(DecodeError::Malformed)
            },
        },
        FieldKind::OptionalText => match parse_u8(s) {
            Err(e) => Err(e),
            Ok((tag, r)) => if tag == 0 {
                Ok((FieldView::OptionalText(None), r))
            } else if tag == 1 {
                match parse_text(r) {
                    Ok((t, r2)) => Ok((FieldView::OptionalText(Some(t)), r2)),
                    Err(e) => Err(e),
                }
            } else {
                Err(DecodeError::Malformed)
            },
        },
        FieldKind::U16List => match parse_u16(s) {
            Err(e) => Err(e),
            Ok((n, r)) => match parse_items(n as nat, r) {
                Ok((v, r2)) => Ok((FieldView::U16List(v), r2)),
                Err(e) => Err(e),
            },
        },
    }
}

pub open spec fn parse_fields(ks: Seq<FieldKind>, s: Seq<u8>) -> Result<
    (Seq<FieldView>, Seq<u8>),
    DecodeError,
>
    decreases ks.len(),
{
    if ks.len() == 0 {
        Ok((seq![], s))
    } else {
        match parse_fields(ks.drop_last(), s) {
            Err(e) => Err(e),
            Ok((fs, r)) => match parse_field(ks.last(), r) {
                Err(e) => Err(e),
                Ok((f, r2)) => Ok((fs.push(f), r2)),
            },
        }
    }
}

/// A whole payload laid out as `ks` says, with nothing after its last field.
pub open spec fn decode_payload(ks: Seq<FieldKind>, s: Seq<u8>) -> Result<
    Seq<FieldView>,
    DecodeError,
> {
    match parse_fields(ks, s) {
        Err(e) => Err(e),
        Ok((fs, r)) => if r.len() == 0 {
            Ok(fs)
        } else {
            Err(DecodeError::TrailingBytes)
        },
    }
}


// ---------------------------------------------------------------------------
// Every field reads back as written, and no proper prefix of one reads at all.
pub proof fn lemma_take_concat(a: Seq<u8>, b: Seq<u8>, k: int)
    requires
        0 <= k <= a.len() + b.len(),
    ensures
        k <= a.len() ==> (a + b).take(k) =~= a.take(k),
        k >= a.len() ==> (a + b).take(k) =~= a + b.take(k - a.len()),
{
}

pub proof fn lemma_u16_round_trip(v: u16, rest: Seq<u8>)
    ensures
        parse_u16(u16_le(v) + rest) == Ok::<(u16, Seq<u8>), DecodeError>((v, rest)),
{
    let s = u16_le(v) + rest;
    assert(s[0] == (v % 256) as u8);
    assert(s[1] == (v / 256) as u8);
    assert(s.skip(2) =~= rest);
}

pub proof fn lemma_u32_round_trip(v: u32, rest: Seq<u8>)
    ensures
        parse_u32(u32_le(v) + rest) == Ok::<(u32, Seq<u8>), DecodeError>((v, rest)),
        u32_le(v).len() == 4,
{
    let lo = (v % 65536) as u16;
    let hi = (v / 65536) as u16;
    let s = u32_le(v) + rest;
    assert(s[0] == (lo % 256) as u8);
    assert(s[1] == (lo / 256) as u8);
    assert(s[2] == (hi % 256) as u8);
    assert(s[3] == (hi / 256) as u8);
    assert(s[0] + 256 * s[1] == lo);
    assert(s[2] + 256 * s[3] == hi);
    assert(s.skip(4) =~= rest);
}

pub proof fn lemma_u64_round_trip(v: u64, rest: Seq<u8>)
    ensures
        parse_u64(u64_le(v) + rest) == Ok::<(u64, Seq<u8>), DecodeError>((v, rest)),
        u64_le(v).len() == 8,
{
    let lo = (v % 0x1_0000_0000) as u32;
    let hi = (v / 0x1_0000_0000) as u32;
    let s = u64_le(v) + rest;
    lemma_u32_round_trip(lo, u32_le(hi) + rest);
    lemma_u32_round_trip(hi, rest);
    assert(s =~= u32_le(lo) + (u32_le(hi) + rest));
    assert((u32_le(lo) + (u32_le(hi) + rest)).skip(4) =~= u32_le(hi) + rest);
    assert(s[4] == (u32_le(hi) + rest)[0]);
    assert(s[5] == (u32_le(hi) + rest)[1]);
    assert(s[6] == (u32_le(hi) + rest)[2]);
    assert(s[7] == (u32_le(hi) + rest)[3]);
    assert(s.skip(8) =~= rest);
}

pub proof fn lemma_text_round_trip(t: Seq<char>, rest: Seq<u8>)
    requires
        text_wf(t),
    ensures
        parse_text(encode_text(t) + rest) == Ok::<(Seq<char>, Seq<u8>), DecodeError>((t, rest)),
{
    let e = encode_utf8(t);
    let s = encode_text(t) + rest;
    let z = e.len() as int;
    assert(s.take(z) =~= e);
    assert(s[z] == 0);
    assert(first_zero_at(s, z));
    let z2 = choose|z2: int| first_zero_at(s, z2);
    if z2 < z {
        assert(s.take(z)[z2] == 0);
    }
    if z2 > z {
        assert(s.take(z2)[z] == 0);
    }
    assert(z2 == z);
    assert(s.skip(z + 1) =~= rest);
}

pub proof fn lemma_text_truncated(t: Seq<char>, k: int)
    requires
        text_wf(t),
        0 <= k < encode_text(t).len(),
    ensures
        parse_text(encode_text(t).take(k)) == Err::<(Seq<char>, Seq<u8>), DecodeError>(
            DecodeError::Truncated,
        ),
{
    let s = encode_text(t).take(k);
    assert(s =~= encode_utf8(t).take(k));
    if exists|z: int| first_zero_at(s, z) {
        let z = choose|z: int| first_zero_at(s, z);
        assert(encode_utf8(t)[z] == 0);
    }
}

pub proof fn lemma_items_len(v: Seq<u16>)
    ensures
        encode_items(v).len() == 2 * v.len(),
    decreases v.len(),
{
    if v.len() > 0 {
        lemma_items_len(v.drop_last());
    }
}

pub proof fn lemma_items_round_trip(v: Seq<u16>, rest: Seq<u8>)
    ensures
        parse_items(v.len(), encode_items(v) + rest) == Ok::<(Seq<u16>, Seq<u8>), DecodeError>(
            (v, rest),
        ),
    decreases v.len(),
{
    if v.len() > 0 {
        let init = v.drop_last();
        let tail = u16_le(v.last()) + rest;
        assert(encode_items(v) + rest =~= encode_items(init) + tail);
        lemma_items_round_trip(init, tail);
        lemma_u16_round_trip(v.last(), rest);
        assert(init.push(v.last()) =~= v);
    } else {
        assert(encode_items(v) + rest =~= rest);
        assert(v =~= seq![]);
    }
}

pub proof fn lemma_items_truncated(v: Seq<u16>, k: int)
    requires
        0 <= k < encode_items(v).len(),
    ensures
        parse_items(v.len(), encode_items(v).take(k)) == Err::<(Seq<u16>, Seq<u8>), DecodeError>(
            DecodeError::Truncated,
        ),
    decreases v.len(),
{
    let init = v.drop_last();
    let a = encode_items(init);
    let b = u16_le(v.last());
    lemma_take_concat(a, b, k);
    if k < a.len() {
        lemma_items_truncated(init, k);
    } else {
        lemma_items_round_trip(init, b.take(k - a.len()));
    }
}

pub proof fn lemma_field_round_trip(f: FieldView, rest: Seq<u8>)
    requires
        field_wf(f),
    ensures
        parse_field(kind_of(f), encode_field(f) + rest) == Ok::<(FieldView, Seq<u8>), DecodeError>(
            (f, rest),
        ),
{
    match f {
        FieldView::U8(x) => {
            assert((seq![x] + rest).skip(1) =~= rest);
        },
        FieldView::U16(x) => lemma_u16_round_trip(x, rest),
        FieldView::U32(x) => lemma_u32_round_trip(x, rest),
        FieldView::U64(x) => lemma_u64_round_trip(x, rest),
        FieldView::Text(t) => lemma_text_round_trip(t, rest),
        FieldView::OptionalU16(None) => {
            assert((seq![0u8] + rest).skip(1) =~= rest);
        },
        FieldView::OptionalU16(Some(x)) => {
            let s = seq![1u8] + u16_le(x) + rest;
            assert(s.skip(1) =~= u16_le(x) + rest);
            lemma_u16_round_trip(x, rest);
        },
        FieldView::OptionalText(None) => {
            assert((seq![0u8] + rest).skip(1) =~= rest);
        },
        FieldView::OptionalText(Some(t)) => {
            let s = seq![1u8] + encode_text(t) + rest;
            assert(s.skip(1) =~= encode_text(t) + rest);
            lemma_text_round_trip(t, rest);
        },
        FieldView::U16List(v) => {
            let s = u16_le(v.len() as u16) + encode_items(v) + rest;
            assert(s =~= u16_le(v.len() as u16) + (encode_items(v) + rest));
            lemma_u16_round_trip(v.len() as u16, encode_items(v) + rest);
            lemma_items_round_trip(v, rest);
        },
    }
}

pub proof fn lemma_field_truncated(f: FieldView, k: int)
    requires
        field_wf(f),
        0 <= k < encode_field(f).len(),
    ensures
        parse_field(kind_of(f), encode_field(f).take(k)) == Err::<(FieldView, Seq<u8>), DecodeError>(
            DecodeError::Truncated,
        ),
{
    match f {
        FieldView::U32(x) => lemma_u32_round_trip(x, seq![]),
        FieldView::U64(x) => lemma_u64_round_trip(x, seq![]),
        FieldView::Text(t) => lemma_text_truncated(t, k),
        FieldView::OptionalU16(Some(x)) => {
            lemma_take_concat(seq![1u8], u16_le(x), k);
            if k >= 1 {
                assert((seq![1u8] + u16_le(x).take(k - 1)).skip(1) =~= u16_le(x).take(k - 1));
            }
        },
        FieldView::OptionalText(Some(t)) => {
            lemma_take_concat(seq![1u8], encode_text(t), k);
            if k >= 1 {
                assert((seq![1u8] + encode_text(t).take(k - 1)).skip(1) =~= encode_text(t).take(
                    k - 1,
                ));
                lemma_text_truncated(t, k - 1);
            }
        },
        FieldView::U16List(v) => {
            let a = u16_le(v.len() as u16);
            let b = encode_items(v);
            lemma_take_concat(a, b, k);
            if k >= 2 {
                lemma_u16_round_trip(v.len() as u16, b.take(k - 2));
                lemma_items_truncated(v, k - 2);
            }
        },
        _ => {},
    }
}

pub proof fn lemma_fields_round_trip(fs: Seq<FieldView>, rest: Seq<u8>)
    requires
        fields_wf(fs),
    ensures
        parse_fields(kinds_of(fs), encode_fields(fs) + rest) == Ok::<
            (Seq<FieldView>, Seq<u8>),
            DecodeError,
        >((fs, rest)),
    decreases fs.len(),
{
    if fs.len() > 0 {
        let init = fs.drop_last();
        let tail = encode_field(fs.last()) + rest;
        assert(encode_fields(fs) + rest =~= encode_fields(init) + tail);
        assert(kinds_of(fs).drop_last() =~= kinds_of(init));
        assert(fields_wf(init)) by {
            assert forall|i: int| 0 <= i < init.len() implies #[trigger] field_wf(init[i]) by {
                assert(field_wf(fs[i]));
            }
        }
        lemma_fields_round_trip(init, tail);
        assert(field_wf(fs[fs.len() - 1]));
        lemma_field_round_trip(fs.last(), rest);
        assert(init.push(fs.last()) =~= fs);
    } else {
        assert(encode_fields(fs) + rest =~= rest);
        assert(fs =~= seq![]);
    }
}

pub proof fn lemma_fields_truncated(fs: Seq<FieldView>, k: int)
    requires
        fields_wf(fs),
        0 <= k < encode_fields(fs).len(),
    ensures
        parse_fields(kinds_of(fs), encode_fields(fs).take(k)) == Err::<
            (Seq<FieldView>, Seq<u8>),
            DecodeError,
        >(DecodeError::Truncated),
    decreases fs.len(),
{
    let init = fs.drop_last();
    let a = encode_fields(init);
    let b = encode_field(fs.last());
    assert(kinds_of(fs).drop_last() =~= kinds_of(init));
    assert(fields_wf(init)) by {
        assert forall|i: int| 0 <= i < init.len() implies #[trigger] field_wf(init[i]) by {
            assert(field_wf(fs[i]));
        }
    }
    assert(field_wf(fs[fs.len() - 1]));
    lemma_take_concat(a, b, k);
    if k < a.len() {
        lemma_fields_truncated(init, k);
    } else {
        lemma_fields_round_trip(init, b.take(k - a.len()));
        lemma_field_truncated(fs.last(), k - a.len());
    }
}

/// A payload made of well-formed fields decodes, against the kinds of those
/// fields, to exactly those fields.
pub proof fn lemma_payload_round_trip(fs: Seq<FieldView>)
    requires
        fields_wf(fs),
    ensures
        decode_payload(kinds_of(fs), encode_fields(fs)) == Ok::<Seq<FieldView>, DecodeError>(fs),
{
    lemma_fields_round_trip(fs, seq![]);
    assert(encode_fields(fs) + seq![] =~= encode_fields(fs));
}

/// Every proper prefix of an encoded payload fails to decode as truncated.
pub proof fn lemma_payload_truncated(fs: Seq<FieldView>, k: int)
    requires
        fields_wf(fs),
        0 <= k < encode_fields(fs).len(),
    ensures
        decode_payload(kinds_of(fs), encode_fields(fs).take(k)) == Err::<
            Seq<FieldView>,
            DecodeError,
        >(DecodeError::Truncated),
{
    lemma_fields_truncated(fs, k);
}


// ---------------------------------------------------------------------------
// Reading fields from a byte slice, starting at a position.
/// The part of `b` that starts at `p`.
pub open spec fn rest_of(b: Seq<u8>, p: int) -> Seq<u8> {
    b.subrange(p, b.len() as int)
}

/// `r`, a value read from `b` at `p` with the position after it, is what the
/// parser `expected` gives on the rest of `b` from `p`.
pub open spec fn read_agrees<T>(
    r: Result<(T, usize), DecodeError>,
    b: Seq<u8>,
    p: int,
    expected: Result<(T, Seq<u8>), DecodeError>,
) -> bool {
    match r {
        Ok((v, q)) => p <= q <= b.len() && expected == Ok::<(T, Seq<u8>), DecodeError>(
            (v, rest_of(b, q as int)),
        ),
        Err(e) => expected == Err::<(T, Seq<u8>), DecodeError>(e),
    }
}

/// As [`read_agrees`], for a value that the parser gives as its view.
pub open spec fn read_agrees_view<T: View>(
    r: Result<(T, usize), DecodeError>,
    b: Seq<u8>,
    p: int,
    expected: Result<(T::V, Seq<u8>), DecodeError>,
) -> bool {
    match r {
        Ok((v, q)) => p <= q <= b.len() && expected == Ok::<(T::V, Seq<u8>), DecodeError>(
            (v@, rest_of(b, q as int)),
        ),
        Err(e) => expected == Err::<(T::V, Seq<u8>), DecodeError>(e),
    }
}

fn read_u8(b: &[u8], p: usize) -> (r: Result<(u8, usize), DecodeError>)
    requires
        p <= b@.len(),
    ensures
        read_agrees(r, b@, p as int, parse_u8(rest_of(b@, p as int))),
{
    if b.len() - p < 1 {
        return Err(DecodeError::Truncated);
    }
    assert(rest_of(rest_of(b@, p as int), 1) =~= rest_of(b@, p + 1));
    Ok((b[p], p + 1))
}

fn read_u16(b: &[u8], p: usize) -> (r: Result<(u16, usize), DecodeError>)
    requires
        p <= b@.len(),
    ensures
        read_agrees(r, b@, p as int, parse_u16(rest_of(b@, p as int))),
{
    if b.len() - p < 2 {
        return Err(DecodeError::Truncated);
    }
    let v: u16 = b[p] as u16 + 256 * (b[p + 1] as u16);
    assert(rest_of(rest_of(b@, p as int), 2) =~= rest_of(b@, p + 2));
    Ok((v, p + 2))
}

fn read_u32(b: &[u8], p: usize) -> (r: Result<(u32, usize), DecodeError>)
    requires
        p <= b@.len(),
    ensures
        read_agrees(r, b@, p as int, parse_u32(rest_of(b@, p as int))),
{
    if b.len() - p < 4 {
        return Err(DecodeError::Truncated);
    }
    let lo: u32 = b[p] as u32 + 256 * (b[p + 1] as u32);
    let hi: u32 = b[p + 2] as u32 + 256 * (b[p + 3] as u32);
    assert(rest_of(rest_of(b@, p as int), 4) =~= rest_of(b@, p + 4));
    Ok((lo + 65536 * hi, p + 4))
}

fn read_u64(b: &[u8], p: usize) -> (r: Result<(u64, usize), DecodeError>)
    requires
        p <= b@.len(),
    ensures
        read_agrees(r, b@, p as int, parse_u64(rest_of(b@, p as int))),
{
    if b.len() - p < 8 {
        return Err(DecodeError::Truncated);
    }
    let lo: u64 = b[p] as u64 + 256 * (b[p + 1] as u64) + 65536 * (b[p + 2] as u64 + 256 * (
    b[p + 3] as u64));
    let hi: u64 = b[p + 4] as u64 + 256 * (b[p + 5] as u64) + 65536 * (b[p + 6] as u64 + 256 * (
    b[p + 7] as u64));
    assert(rest_of(rest_of(b@, p as int), 8) =~= rest_of(b@, p + 8));
    Ok((lo + 0x1_0000_0000 * hi, p + 8))
}

/// Relies on `String::from_utf8`: it accepts exactly the byte sequences that
/// are valid UTF-8, and the string it returns holds the characters they encode.
#[verifier::external_body]
fn string_from_utf8(bytes: Vec<u8>) -> (r: Option<String>)
    ensures
        r is Some <==> valid_utf8(bytes@),
        r matches Some(s) ==> s@ == decode_utf8(bytes@),
{
    match String::from_utf8(bytes) {
        Ok(s) => Some(s),
        Err(_) => None,
    }
}

fn read_text(b: &[u8], p: usize) -> (r: Result<(String, usize), DecodeError>)
    requires
        p <= b@.len(),
    ensures
        read_agrees_view(r, b@, p as int, parse_text(rest_of(b@, p as int))),
{
    let ghost s = rest_of(b@, p as int);
    let mut i: usize = p;
    let mut bytes: Vec<u8> = Vec::new();
    while i < b.len() && b[i] != 0
        invariant
            p <= i <= b@.len(),
            s == rest_of(b@, p as int),
            bytes@ =~= s.take(i - p),
            no_zero_byte(bytes@),
        decreases b@.len() - i,
    {
        bytes.push(b[i]);
        i += 1;
    }
    if i == b.len() {
        proof {
            if exists|z: int| first_zero_at(s, z) {
                let z = choose|z: int| first_zero_at(s, z);
                assert(bytes@[z] == 0);
            }
        }
        return Err(DecodeError::Truncated);
    }
    let ghost z = i - p;
    proof {
        assert(first_zero_at(s, z));
        let z2 = choose|z2: int| first_zero_at(s, z2);
        if z2 < z {
            assert(s.take(z)[z2] == 0);
        }
        if z2 > z {
            assert(s.take(z2)[z] == 0);
        }
        assert(s.skip(z + 1) =~= rest_of(b@, i + 1));
    }
    match string_from_utf8(bytes) {
        Some(t) => Ok((t, i + 1)),
        None => Err(DecodeError::Malformed),
    }
}

proof fn lemma_items_err_persists(m: nat, n: nat, s: Seq<u8>)
    requires
        m <= n,
        parse_items(m, s) is Err,
    ensures
        parse_items(n, s) == parse_items(m, s),
    decreases n - m,
{
    if m < n {
        lemma_items_err_persists(m, (n - 1) as nat, s);
    }
}

fn read_items(b: &[u8], p: usize, n: u16) -> (r: Result<(Vec<u16>, usize), DecodeError>)
    requires
        p <= b@.len(),
    ensures
        read_agrees_view(r, b@, p as int, parse_items(n as nat, rest_of(b@, p as int))),
{
    let ghost s = rest_of(b@, p as int);
    let mut v: Vec<u16> = Vec::new();
    let mut q: usize = p;
    let mut i: u16 = 0;
    assert(rest_of(b@, p as int) == s);
    while i < n
        invariant
            p <= q <= b@.len(),
            i <= n,
            s == rest_of(b@, p as int),
            parse_items(i as nat, s) == Ok::<(Seq<u16>, Seq<u8>), DecodeError>(
                (v@, rest_of(b@, q as int)),
            ),
        decreases n - i,
    {
        match read_u16(b, q) {
            Err(e) => {
                proof {
                    lemma_items_err_persists((i + 1) as nat, n as nat, s);
                }
                return Err(e);
            },
            Ok((x, q2)) => {
                v.push(x);
                q = q2;
                i += 1;
            },
        }
    }
    Ok((v, q))
}

fn read_field(k: FieldKind, b: &[u8], p: usize) -> (r: Result<(Field, usize), DecodeError>)
    requires
        p <= b@.len(),
    ensures
        read_agrees_view(r, b@, p as int, parse_field(k, rest_of(b@, p as int))),
{
    match k {
        FieldKind::U8 => match read_u8(b, p) {
            Ok((x, q)) => Ok((Field::U8(x), q)),
            Err(e) => Err(e),
        },
        FieldKind::U16 => match read_u16(b, p) {
            Ok((x, q)) => Ok((Field::U16(x), q)),
            Err(e) => Err(e),
        },
        FieldKind::U32 => match read_u32(b, p) {
            Ok((x, q)) => Ok((Field::U32(x), q)),
            Err(e) => Err(e),
        },
        FieldKind::U64 => match read_u64(b, p) {
            Ok((x, q)) => Ok((Field::U64(x), q)),
            Err(e) => Err(e),
        },
        FieldKind::Text => match read_text(b, p) {
            Ok((t, q)) => Ok((Field::Text(t), q)),
            Err(e) => Err(e),
        },
        FieldKind::OptionalU16 => match read_u8(b, p) {
            Err(e) => Err(e),
            Ok((tag, q)) => if tag == 0 {
                Ok((Field::OptionalU16(None), q))
            } else if tag == 1 {
                match read_u16(b, q) {
                    Ok((x, q2)) => Ok((Field::OptionalU16(Some(x)), q2)),
                    Err(e) => Err(e),
                }
            } else {
                Err(DecodeError::Malformed)
            },
        },
        FieldKind::OptionalText => match read_u8(b, p) {
            Err(e) => Err(e),
            Ok((tag, q)) => if tag == 0 {
                Ok((Field::OptionalText(None), q))
            } else if tag == 1 {
                match read_text(b, q) {
                    Ok((t, q2)) => Ok((Field::OptionalText(Some(t)), q2)),
                    Err(e) => Err(e),
                }
            } else {
                Err(DecodeError::Malformed)
            },
        },
        FieldKind::U16List => match read_u16(b, p) {
            Err(e) => Err(e),
            Ok((n, q)) => match read_items(b, q, n) {
                Ok((v, q2)) => Ok((Field::U16List(v), q2)),
                Err(e) => Err(e),
            },
        },
    }
}

proof fn lemma_fields_err_persists(ks: Seq<FieldKind>, i: int, s: Seq<u8>)
    requires
        0 <= i <= ks.len(),
        parse_fields(ks.take(i), s) is Err,
    ensures
        parse_fields(ks, s) == parse_fields(ks.take(i), s),
    decreases ks.len() - i,
{
    if i < ks.len() {
        assert(ks.drop_last().take(i) =~= ks.take(i));
        lemma_fields_err_persists(ks.drop_last(), i, s);
    } else {
        assert(ks.take(i) =~= ks);
    }
}

/// Decodes a whole payload laid out as `ks` says.
pub fn read_payload(ks: &[FieldKind], b: &[u8]) -> (r: Result<Vec<Field>, DecodeError>)
    ensures
        match decode_payload(ks@, b@) {
            Ok(fv) => r matches Ok(fs) && fields_view(fs@) == fv,
            Err(e) => r == Err::<Vec<Field>, DecodeError>(e),
        },
{
    let mut fs: Vec<Field> = Vec::new();
    let mut q: usize = 0;
    let mut i: usize = 0;
    assert(rest_of(b@, 0) =~= b@);
    assert(ks@.take(0) =~= seq![]);
    assert(fields_view(fs@) =~= seq![]);
    while i < ks.len()
        invariant
            q <= b@.len(),
            i <= ks@.len(),
            parse_fields(ks@.take(i as int), b@) == Ok::<(Seq<FieldView>, Seq<u8>), DecodeError>(
                (fields_view(fs@), rest_of(b@, q as int)),
            ),
        decreases ks@.len() - i,
    {
        assert(ks@.take(i + 1).drop_last() =~= ks@.take(i as int));
        match read_field(ks[i], b, q) {
            Err(e) => {
                proof {
                    lemma_fields_err_persists(ks@, i + 1, b@);
                }
                return Err(e);
            },
            Ok((f, q2)) => {
                let ghost before = fs@;
                fs.push(f);
                assert(fields_view(fs@) =~= fields_view(before).push(f@));
                q = q2;
                i += 1;
            },
        }
    }
    assert(ks@.take(i as int) =~= ks@);
    if q < b.len() {
        return Err(DecodeError::TrailingBytes);
    }
    Ok(fs)
}


// ---------------------------------------------------------------------------
// Writing fields.
/// What keeps a field from being encoded, if anything.
pub open spec fn field_error(f: FieldView) -> Option<EncodeError> {
    match f {
        FieldView::Text(t) => if text_wf(t) {
            None
        } else {
            Some(EncodeError::ZeroByteInText)
        },
        FieldView::OptionalText(Some(t)) => if text_wf(t) {
            None
        } else {
            Some(EncodeError::ZeroByteInText)
        },
        FieldView::U16List(v) => if v.len() <= u16::MAX {
            None
        } else {
            Some(EncodeError::TooManyItems)
        },
        _ => None,
    }
}

fn write_u16(out: &mut Vec<u8>, v: u16)
    ensures
        final(out)@ == old(out)@ + u16_le(v),
{
    out.push((v % 256) as u8);
    out.push((v / 256) as u8);
    assert(final(out)@ =~= old(out)@ + u16_le(v));
}

fn write_u32(out: &mut Vec<u8>, v: u32)
    ensures
        final(out)@ == old(out)@ + u32_le(v),
{
    write_u16(out, (v % 65536) as u16);
    write_u16(out, (v / 65536) as u16);
    assert(final(out)@ =~= old(out)@ + u32_le(v));
}

fn write_u64(out: &mut Vec<u8>, v: u64)
    ensures
        final(out)@ == old(out)@ + u64_le(v),
{
    write_u32(out, (v % 0x1_0000_0000) as u32);
    write_u32(out, (v / 0x1_0000_0000) as u32);
    assert(final(out)@ =~= old(out)@ + u64_le(v));
}

fn text_is_encodable(t: &String) -> (ok: bool)
    ensures
        ok == text_wf(t@),
{
    let bytes = t.as_str().as_bytes();
    let mut i: usize = 0;
    while i < bytes.len()
        invariant
            i <= bytes@.len(),
            bytes@ == encode_utf8(t@),
            no_zero_byte(bytes@.take(i as int)),
        decreases bytes@.len() - i,
    {
        if bytes[i] == 0 {
            return false;
        }
        assert(bytes@.take(i + 1) =~= bytes@.take(i as int).push(bytes@[i as int]));
        i += 1;
    }
    assert(bytes@.take(i as int) =~= bytes@);
    true
}

fn write_text(out: &mut Vec<u8>, t: &String)
    ensures
        final(out)@ == old(out)@ + encode_text(t@),
{
    let bytes = t.as_str().as_bytes();
    let mut i: usize = 0;
    while i < bytes.len()
        invariant
            i <= bytes@.len(),
            bytes@ == encode_utf8(t@),
            out@ == old(out)@ + bytes@.take(i as int),
        decreases bytes@.len() - i,
    {
        out.push(bytes[i]);
        assert(bytes@.take(i + 1) =~= bytes@.take(i as int).push(bytes@[i as int]));
        i += 1;
    }
    out.push(0);
    assert(bytes@.take(i as int) =~= bytes@);
    assert(final(out)@ =~= old(out)@ + encode_text(t@));
}

fn write_items(out: &mut Vec<u8>, v: &Vec<u16>)
    ensures
        final(out)@ == old(out)@ + encode_items(v@),
{
    let mut i: usize = 0;
    assert(v@.take(0) =~= seq![]);
    assert(old(out)@ + encode_items(seq![]) =~= old(out)@);
    while i < v.len()
        invariant
            i <= v@.len(),
            out@ == old(out)@ + encode_items(v@.take(i as int)),
        decreases v@.len() - i,
    {
        write_u16(out, v[i]);
        assert(v@.take(i + 1).drop_last() =~= v@.take(i as int));
        assert(old(out)@ + encode_items(v@.take(i + 1)) =~= old(out)@ + encode_items(
            v@.take(i as int),
        ) + u16_le(v@[i as int]));
        i += 1;
    }
    assert(v@.take(i as int) =~= v@);
}

fn check_field(f: &Field) -> (r: Option<EncodeError>)
    ensures
        r == field_error(f@),
{
    match f {
        Field::Text(t) => if text_is_encodable(t) {
            None
        } else {
            Some(EncodeError::ZeroByteInText)
        },
        Field::OptionalText(Some(t)) => if text_is_encodable(t) {
            None
        } else {
            Some(EncodeError::ZeroByteInText)
        },
        Field::U16List(v) => if v.len() <= 65535 {
            None
        } else {
            Some(EncodeError::TooManyItems)
        },
        _ => None,
    }
}

fn write_field(out: &mut Vec<u8>, f: &Field)
    requires
        field_wf(f@),
    ensures
        final(out)@ == old(out)@ + encode_field(f@),
{
    match f {
        Field::U8(x) => {
            out.push(*x);
            assert(final(out)@ =~= old(out)@ + seq![*x]);
        },
        Field::U16(x) => write_u16(out, *x),
        Field::U32(x) => write_u32(out, *x),
        Field::U64(x) => write_u64(out, *x),
        Field::Text(t) => write_text(out, t),
        Field::OptionalU16(None) => {
            out.push(0);
            assert(final(out)@ =~= old(out)@ + seq![0u8]);
        },
        Field::OptionalU16(Some(x)) => {
            out.push(1);
            write_u16(out, *x);
            assert(final(out)@ =~= old(out)@ + (seq![1u8] + u16_le(*x)));
        },
        Field::OptionalText(None) => {
            out.push(0);
            assert(final(out)@ =~= old(out)@ + seq![0u8]);
        },
        Field::OptionalText(Some(t)) => {
            out.push(1);
            write_text(out, t);
            assert(final(out)@ =~= old(out)@ + (seq![1u8] + encode_text(t@)));
        },
        Field::U16List(v) => {
            write_u16(out, v.len() as u16);
            write_items(out, v);
            assert(final(out)@ =~= old(out)@ + (u16_le(v@.len() as u16) + encode_items(v@)));
        },
    }
}

/// Encodes fields one after the other. It fails, with the error of the first
/// field that cannot be encoded, exactly when some field cannot be.
pub fn encode_payload(fs: &Vec<Field>) -> (r: Result<Vec<u8>, EncodeError>)
    ensures
        r is Ok <==> fields_wf(fields_view(fs@)),
        r matches Ok(b) ==> b@ == encode_fields(fields_view(fs@)),
        r matches Err(e) ==> exists|i: int|
            0 <= i < fs@.len() && field_error(#[trigger] fs@[i]@) == Some(e),
{
    let ghost fv = fields_view(fs@);
    let mut i: usize = 0;
    while i < fs.len()
        invariant
            i <= fs@.len(),
            fv == fields_view(fs@),
            forall|j: int| 0 <= j < i ==> #[trigger] field_wf(fv[j]),
        decreases fs@.len() - i,
    {
        match check_field(&fs[i]) {
            Some(e) => {
                assert(!field_wf(fv[i as int]));
                return Err(e);
            },
            None => {},
        }
        i += 1;
    }
    let mut out: Vec<u8> = Vec::new();
    let mut i: usize = 0;
    assert(fv.take(0) =~= seq![]);
    assert(out@ =~= encode_fields(seq![]));
    while i < fs.len()
        invariant
            i <= fs@.len(),
            fv == fields_view(fs@),
            fields_wf(fv),
            out@ == encode_fields(fv.take(i as int)),
        decreases fs@.len() - i,
    {
        assert(field_wf(fv[i as int]));
        write_field(&mut out, &fs[i]);
        assert(fv.take(i + 1).drop_last() =~= fv.take(i as int));
        i += 1;
    }
    assert(fv.take(i as int) =~= fv);
    Ok(out)
}


/// Fields read against a list of kinds have exactly those kinds.
pub proof fn lemma_parsed_kinds(ks: Seq<FieldKind>, s: Seq<u8>)
    ensures
        parse_fields(ks, s) matches Ok((fv, _)) ==> kinds_of(fv) == ks,
        decode_payload(ks, s) matches Ok(fv) ==> kinds_of(fv) == ks,
    decreases ks.len(),
{
    if ks.len() > 0 {
        lemma_parsed_kinds(ks.drop_last(), s);
        if let Ok((fv, _)) = parse_fields(ks, s) {
            let (init, r) = parse_fields(ks.drop_last(), s)->Ok_0;
            let (f, _) = parse_field(ks.last(), r)->Ok_0;
            assert(kind_of(f) == ks.last());
            assert(fv == init.push(f));
            assert(kinds_of(init) == ks.drop_last());
            assert forall|i: int| 0 <= i < ks.len() implies kinds_of(fv)[i] == ks[i] by {
                if i < ks.len() - 1 {
                    assert(kinds_of(init)[i] == ks.drop_last()[i]);
                }
            }
            assert(kinds_of(fv) =~= ks);
        }
    } else {
        if let Ok((fv, _)) = parse_fields(ks, s) {
            assert(kinds_of(fv) =~= ks);
        }
    }
}

} // verus!
