//! Element types that memory can hold, and their byte encoding.
use crate::sys::TiDataType;
use vstd::bytes::{
    lemma_auto_spec_u16_to_from_le_bytes, lemma_auto_spec_u32_to_from_le_bytes,
    lemma_auto_spec_u64_to_from_le_bytes, spec_u16_from_le_bytes, spec_u16_to_le_bytes,
    spec_u32_from_le_bytes, spec_u32_to_le_bytes, spec_u64_from_le_bytes, spec_u64_to_le_bytes,
    u16_from_le_bytes, u16_to_le_bytes, u32_from_le_bytes, u32_to_le_bytes, u64_from_le_bytes,
    u64_to_le_bytes,
};
use vstd::prelude::*;
use vstd::slice::slice_subrange;

verus! {

/// A primitive type whose values can be stored in device memory. Each type
/// names its runtime type tag and encodes a value as `spec_width()`
/// little-endian bytes.
pub trait Element: Sized + Copy {
    spec fn spec_width() -> nat;

    spec fn spec_data_type() -> TiDataType;

    spec fn spec_encode(v: Self) -> Seq<u8>;

    spec fn spec_decode(b: Seq<u8>) -> Self;

    /// Decoding an encoded value gives the value back.
    proof fn lemma_codec(v: Self)
        ensures
            1 <= Self::spec_width() <= 8,
            Self::spec_encode(v).len() == Self::spec_width(),
            Self::spec_decode(Self::spec_encode(v)) == v,
    ;

    /// The number of bytes of one value.
    fn width() -> (r: usize)
        ensures
            r == Self::spec_width(),
            1 <= r <= 8,
    ;

    /// The zero value of this type.
    fn zero() -> (r: Self);

    /// The runtime type tag of this type.
    fn data_type() -> (r: TiDataType)
        ensures
            r == Self::spec_data_type(),
    ;

    /// Appends the encoding of this value.
    fn encode(&self, out: &mut Vec<u8>)
        ensures
            final(out)@ == old(out)@ + Self::spec_encode(*self),
    ;

    /// Decodes a value from exactly its bytes.
    fn decode(b: &[u8]) -> (r: Self)
        requires
            b@.len() == Self::spec_width(),
        ensures
            r == Self::spec_decode(b@),
    ;
}

impl Element for u8 {
    fn zero() -> (r: Self) {
        0
    }

    open spec fn spec_width() -> nat {
        1
    }

    open spec fn spec_data_type() -> TiDataType {
        TiDataType::U8
    }

    open spec fn spec_encode(v: Self) -> Seq<u8> {
        seq![v]
    }

    open spec fn spec_decode(b: Seq<u8>) -> Self {
        b[0]
    }

    proof fn lemma_codec(v: Self) {
    }

    fn width() -> (r: usize) {
        1
    }

    fn data_type() -> (r: TiDataType) {
        TiDataType::U8
    }

    fn encode(&self, out: &mut Vec<u8>) {
        out.push(*self);
    }

    fn decode(b: &[u8]) -> (r: Self) {
        b[0]
    }
}

impl Element for i8 {
    fn zero() -> (r: Self) {
        0
    }

    open spec fn spec_width() -> nat {
        1
    }

    open spec fn spec_data_type() -> TiDataType {
        TiDataType::I8
    }

    open spec fn spec_encode(v: Self) -> Seq<u8> {
        seq![v as u8]
    }

    open spec fn spec_decode(b: Seq<u8>) -> Self {
        b[0] as i8
    }

    proof fn lemma_codec(v: Self) {
        assert(((v as u8) as i8) == v) by (bit_vector);
    }

    fn width() -> (r: usize) {
        1
    }

    fn data_type() -> (r: TiDataType) {
        TiDataType::I8
    }

    fn encode(&self, out: &mut Vec<u8>) {
        out.push(#[verifier::truncate] (*self as u8));
    }

    fn decode(b: &[u8]) -> (r: Self) {
        #[verifier::truncate] (b[0] as i8)
    }
}

impl Element for u16 {
    fn zero() -> (r: Self) {
        0
    }

    open spec fn spec_width() -> nat {
        2
    }

    open spec fn spec_data_type() -> TiDataType {
        TiDataType::U16
    }

    open spec fn spec_encode(v: Self) -> Seq<u8> {
        spec_u16_to_le_bytes(v)
    }

    open spec fn spec_decode(b: Seq<u8>) -> Self {
        spec_u16_from_le_bytes(b)
    }

    proof fn lemma_codec(v: Self) {
        lemma_auto_spec_u16_to_from_le_bytes();
    }

    fn width() -> (r: usize) {
        2
    }

    fn data_type() -> (r: TiDataType) {
        TiDataType::U16
    }

    fn encode(&self, out: &mut Vec<u8>) {
        let mut bytes = u16_to_le_bytes(*self);
        out.append(&mut bytes);
    }

    fn decode(b: &[u8]) -> (r: Self) {
        u16_from_le_bytes(b)
    }
}

impl Element for u32 {
    fn zero() -> (r: Self) {
        0
    }

    open spec fn spec_width() -> nat {
        4
    }

    open spec fn spec_data_type() -> TiDataType {
        TiDataType::U32
    }

    open spec fn spec_encode(v: Self) -> Seq<u8> {
        spec_u32_to_le_bytes(v)
    }

    open spec fn spec_decode(b: Seq<u8>) -> Self {
        spec_u32_from_le_bytes(b)
    }

    proof fn lemma_codec(v: Self) {
        lemma_auto_spec_u32_to_from_le_bytes();
    }

    fn width() -> (r: usize) {
        4
    }

    fn data_type() -> (r: TiDataType) {
        TiDataType::U32
    }

    fn encode(&self, out: &mut Vec<u8>) {
        let mut bytes = u32_to_le_bytes(*self);
        out.append(&mut bytes);
    }

    fn decode(b: &[u8]) -> (r: Self) {
        u32_from_le_bytes(b)
    }
}

impl Element for u64 {
    fn zero() -> (r: Self) {
        0
    }

    open spec fn spec_width() -> nat {
        8
    }

    open spec fn spec_data_type() -> TiDataType {
        TiDataType::U64
    }

    open spec fn spec_encode(v: Self) -> Seq<u8> {
        spec_u64_to_le_bytes(v)
    }

    open spec fn spec_decode(b: Seq<u8>) -> Self {
        spec_u64_from_le_bytes(b)
    }

    proof fn lemma_codec(v: Self) {
        lemma_auto_spec_u64_to_from_le_bytes();
    }

    fn width() -> (r: usize) {
        8
    }

    fn data_type() -> (r: TiDataType) {
        TiDataType::U64
    }

    fn encode(&self, out: &mut Vec<u8>) {
        let mut bytes = u64_to_le_bytes(*self);
        out.append(&mut bytes);
    }

    fn decode(b: &[u8]) -> (r: Self) {
        u64_from_le_bytes(b)
    }
}

impl Element for i16 {
    fn zero() -> (r: Self) {
        0
    }

    open spec fn spec_width() -> nat {
        2
    }

    open spec fn spec_data_type() -> TiDataType {
        TiDataType::I16
    }

    open spec fn spec_encode(v: Self) -> Seq<u8> {
        spec_u16_to_le_bytes(v as u16)
    }

    open spec fn spec_decode(b: Seq<u8>) -> Self {
        spec_u16_from_le_bytes(b) as i16
    }

    proof fn lemma_codec(v: Self) {
        lemma_auto_spec_u16_to_from_le_bytes();
        assert(((v as u16) as i16) == v) by (bit_vector);
    }

    fn width() -> (r: usize) {
        2
    }

    fn data_type() -> (r: TiDataType) {
        TiDataType::I16
    }

    fn encode(&self, out: &mut Vec<u8>) {
        let mut bytes = u16_to_le_bytes(#[verifier::truncate] (*self as u16));
        out.append(&mut bytes);
    }

    fn decode(b: &[u8]) -> (r: Self) {
        #[verifier::truncate] ((u16_from_le_bytes(b)) as i16)
    }
}

impl Element for i32 {
    fn zero() -> (r: Self) {
        0
    }

    open spec fn spec_width() -> nat {
        4
    }

    open spec fn spec_data_type() -> TiDataType {
        TiDataType::I32
    }

    open spec fn spec_encode(v: Self) -> Seq<u8> {
        spec_u32_to_le_bytes(v as u32)
    }

    open spec fn spec_decode(b: Seq<u8>) -> Self {
        spec_u32_from_le_bytes(b) as i32
    }

    proof fn lemma_codec(v: Self) {
        lemma_auto_spec_u32_to_from_le_bytes();
        assert(((v as u32) as i32) == v) by (bit_vector);
    }

    fn width() -> (r: usize) {
        4
    }

    fn data_type() -> (r: TiDataType) {
        TiDataType::I32
    }

    fn encode(&self, out: &mut Vec<u8>) {
        let mut bytes = u32_to_le_bytes(#[verifier::truncate] (*self as u32));
        out.append(&mut bytes);
    }

    fn decode(b: &[u8]) -> (r: Self) {
        #[verifier::truncate] ((u32_from_le_bytes(b)) as i32)
    }
}

impl Element for i64 {
    fn zero() -> (r: Self) {
        0
    }

    open spec fn spec_width() -> nat {
        8
    }

    open spec fn spec_data_type() -> TiDataType {
        TiDataType::I64
    }

    open spec fn spec_encode(v: Self) -> Seq<u8> {
        spec_u64_to_le_bytes(v as u64)
    }

    open spec fn spec_decode(b: Seq<u8>) -> Self {
        spec_u64_from_le_bytes(b) as i64
    }

    proof fn lemma_codec(v: Self) {
        lemma_auto_spec_u64_to_from_le_bytes();
        assert(((v as u64) as i64) == v) by (bit_vector);
    }

    fn width() -> (r: usize) {
        8
    }

    fn data_type() -> (r: TiDataType) {
        TiDataType::I64
    }

    fn encode(&self, out: &mut Vec<u8>) {
        let mut bytes = u64_to_le_bytes(#[verifier::truncate] (*self as u64));
        out.append(&mut bytes);
    }

    fn decode(b: &[u8]) -> (r: Self) {
        #[verifier::truncate] ((u64_from_le_bytes(b)) as i64)
    }
}

/// The bytes of a sequence of values, one encoding after another.
pub open spec fn encode_seq<T: Element>(s: Seq<T>) -> Seq<u8>
    decreases s.len(),
{
    if s.len() == 0 {
        Seq::empty()
    } else {
        encode_seq(s.drop_last()) + T::spec_encode(s.last())
    }
}

/// The `n` values stored one after another at the start of `b`.
pub open spec fn decode_seq<T: Element>(b: Seq<u8>, n: nat) -> Seq<T> {
    Seq::new(
        n,
        |i: int|
            T::spec_decode(b.subrange(i * T::spec_width(), i * T::spec_width() + T::spec_width())),
    )
}

/// The encoding of a sequence has one width of bytes per value, and the
/// bytes of value `i` start at `i` widths.
pub proof fn lemma_encode_seq_layout<T: Element>(s: Seq<T>)
    ensures
        encode_seq(s).len() == s.len() * T::spec_width(),
        forall|i: int|
            0 <= i < s.len() ==> #[trigger] encode_seq(s).subrange(
                i * T::spec_width(),
                i * T::spec_width() + T::spec_width(),
            ) == T::spec_encode(s[i]),
    decreases s.len(),
{
    let w = T::spec_width();
    if s.len() == 0 {
    } else {
        let p = s.drop_last();
        lemma_encode_seq_layout::<T>(p);
        T::lemma_codec(s.last());
        let e = encode_seq(s);
        let pe = encode_seq(p);
        assert(e == pe + T::spec_encode(s.last()));
        assert(p.len() * w + w == s.len() * w) by (nonlinear_arith)
            requires
                p.len() + 1 == s.len(),
        ;
        assert forall|i: int| 0 <= i < s.len() implies #[trigger] e.subrange(i * w, i * w + w)
            == T::spec_encode(s[i]) by {
            if i < p.len() {
                assert(i * w + w <= p.len() * w) by (nonlinear_arith)
                    requires
                        i < p.len(),
                        0 <= i,
                ;
                assert(0 <= i * w) by (nonlinear_arith)
                    requires
                        0 <= i,
                ;
                assert(e.subrange(i * w, i * w + w) =~= pe.subrange(i * w, i * w + w));
                assert(s[i] == p[i]);
            } else {
                assert(i == p.len());
                assert(e.subrange(i * w, i * w + w) =~= T::spec_encode(s.last()));
            }
        }
    }
}

/// Decoding the encoding of a sequence gives the sequence back.
pub proof fn lemma_round_trip<T: Element>(values: Seq<T>)
    ensures
        decode_seq::<T>(encode_seq(values), values.len()) == values,
{
    lemma_encode_seq_layout::<T>(values);
    assert forall|i: int| 0 <= i < values.len() implies #[trigger] decode_seq::<T>(
        encode_seq(values),
        values.len(),
    )[i] == values[i] by {
        T::lemma_codec(values[i]);
        assert(encode_seq(values).subrange(
            i * T::spec_width(),
            i * T::spec_width() + T::spec_width(),
        ) == T::spec_encode(values[i]));
    }
    assert(decode_seq::<T>(encode_seq(values), values.len()) =~= values);
}

/// Encodes `values`, one value after another.
pub fn encode_all<T: Element>(values: &[T]) -> (r: Vec<u8>)
    ensures
        r@ == encode_seq(values@),
{
    let mut out: Vec<u8> = Vec::new();
    let n = values.len();
    let mut i: usize = 0;
    while i < n
        invariant
            n == values@.len(),
            i <= n,
            out@ == encode_seq(values@.subrange(0, i as int)),
        decreases n - i,
    {
        assert(values@.subrange(0, i as int + 1).drop_last() =~= values@.subrange(0, i as int));
        values[i].encode(&mut out);
        i = i + 1;
    }
    assert(values@.subrange(0, n as int) =~= values@);
    out
}

/// Decodes the `n` values stored one after another in `bytes`.
pub fn decode_all<T: Element>(bytes: &Vec<u8>, n: usize) -> (r: Vec<T>)
    requires
        n * T::spec_width() == bytes@.len(),
    ensures
        r@ == decode_seq::<T>(bytes@, n as nat),
{
    let w = T::width();
    let len = bytes.len();
    let mut out: Vec<T> = Vec::new();
    let mut i: usize = 0;
    while i < n
        invariant
            w == T::spec_width(),
            1 <= w <= 8,
            n * w == bytes@.len(),
            len == bytes@.len(),
            i <= n,
            out@ =~= decode_seq::<T>(bytes@, n as nat).subrange(0, i as int),
        decreases n - i,
    {
        assert(i * w + w <= n * w) by (nonlinear_arith)
            requires
                i < n,
        ;
        let part = slice_subrange(bytes.as_slice(), i * w, i * w + w);
        let v = T::decode(part);
        out.push(v);
        i = i + 1;
    }
    out
}

} // verus!
