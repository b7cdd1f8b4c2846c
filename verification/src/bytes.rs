use vstd::prelude::*;

use vstd::bytes::{
    lemma_auto_spec_u128_to_from_le_bytes, lemma_auto_spec_u16_to_from_le_bytes,
    lemma_auto_spec_u32_to_from_le_bytes, lemma_auto_spec_u64_to_from_le_bytes,
    spec_u128_from_le_bytes, spec_u128_to_le_bytes, spec_u16_from_le_bytes, spec_u16_to_le_bytes,
    spec_u32_from_le_bytes, spec_u32_to_le_bytes, spec_u64_from_le_bytes, spec_u64_to_le_bytes,
};

verus! {

/// Values that are stored in memory as a fixed number of bytes, least significant first.
pub trait Bytes: Sized + Copy {
    /// The number of bytes of a value.
    spec fn byte_count() -> nat;

    /// The value that `bytes` encode.
    spec fn decode_bytes(bytes: Seq<u8>) -> Self;

    /// The bytes that encode the value.
    spec fn encode_bytes(self) -> Seq<u8>;

    fn size() -> (r: usize)
        ensures
            r == Self::byte_count(),
            r == 1 || r == 2 || r == 4 || r == 8 || r == 16,
    ;

    fn from_bytes(bytes: &[u8]) -> (r: Self)
        requires
            bytes@.len() == Self::byte_count(),
        ensures
            r == Self::decode_bytes(bytes@),
    ;

    fn to_bytes(self) -> (r: Vec<u8>)
        ensures
            r@ == self.encode_bytes(),
            r@.len() == Self::byte_count(),
    ;

    /// A value takes 1, 2, 4, 8 or 16 bytes.
    proof fn lemma_byte_count()
        ensures
            Self::byte_count() == 1 || Self::byte_count() == 2 || Self::byte_count() == 4
                || Self::byte_count() == 8 || Self::byte_count() == 16,
    ;

    /// Encoding a value and decoding the bytes gives the value back; decoding bytes of the
    /// right length and encoding the value gives the bytes back.
    proof fn lemma_bytes_roundtrip(self, bytes: Seq<u8>)
        ensures
            self.encode_bytes().len() == Self::byte_count(),
            Self::decode_bytes(self.encode_bytes()) == self,
            bytes.len() == Self::byte_count() ==> Self::decode_bytes(bytes).encode_bytes() == bytes,
    ;
}

impl Bytes for u8 {
    open spec fn byte_count() -> nat {
        1
    }

    open spec fn decode_bytes(bytes: Seq<u8>) -> u8 {
        bytes[0]
    }

    open spec fn encode_bytes(self) -> Seq<u8> {
        seq![self]
    }

    fn size() -> (r: usize) {
        1
    }

    fn from_bytes(bytes: &[u8]) -> (r: u8) {
        bytes[0]
    }

    fn to_bytes(self) -> (r: Vec<u8>) {
        let mut v: Vec<u8> = Vec::new();
        v.push(self);
        v
    }

    proof fn lemma_byte_count() {
    }

    proof fn lemma_bytes_roundtrip(self, bytes: Seq<u8>) {
        if bytes.len() == 1 {
            assert(seq![bytes[0]] =~= bytes);
        }
    }
}

impl Bytes for u16 {
    open spec fn byte_count() -> nat {
        2
    }

    open spec fn decode_bytes(bytes: Seq<u8>) -> u16 {
        spec_u16_from_le_bytes(bytes)
    }

    open spec fn encode_bytes(self) -> Seq<u8> {
        spec_u16_to_le_bytes(self)
    }

    fn size() -> (r: usize) {
        2
    }

    fn from_bytes(bytes: &[u8]) -> (r: u16) {
        vstd::bytes::u16_from_le_bytes(bytes)
    }

    fn to_bytes(self) -> (r: Vec<u8>) {
        vstd::bytes::u16_to_le_bytes(self)
    }

    proof fn lemma_byte_count() {
    }

    proof fn lemma_bytes_roundtrip(self, bytes: Seq<u8>) {
        lemma_auto_spec_u16_to_from_le_bytes();
    }
}

impl Bytes for u32 {
    open spec fn byte_count() -> nat {
        4
    }

    open spec fn decode_bytes(bytes: Seq<u8>) -> u32 {
        spec_u32_from_le_bytes(bytes)
    }

    open spec fn encode_bytes(self) -> Seq<u8> {
        spec_u32_to_le_bytes(self)
    }

    fn size() -> (r: usize) {
        4
    }

    fn from_bytes(bytes: &[u8]) -> (r: u32) {
        vstd::bytes::u32_from_le_bytes(bytes)
    }

    fn to_bytes(self) -> (r: Vec<u8>) {
        vstd::bytes::u32_to_le_bytes(self)
    }

    proof fn lemma_byte_count() {
    }

    proof fn lemma_bytes_roundtrip(self, bytes: Seq<u8>) {
        lemma_auto_spec_u32_to_from_le_bytes();
    }
}

impl Bytes for u64 {
    open spec fn byte_count() -> nat {
        8
    }

    open spec fn decode_bytes(bytes: Seq<u8>) -> u64 {
        spec_u64_from_le_bytes(bytes)
    }

    open spec fn encode_bytes(self) -> Seq<u8> {
        spec_u64_to_le_bytes(self)
    }

    fn size() -> (r: usize) {
        8
    }

    fn from_bytes(bytes: &[u8]) -> (r: u64) {
        vstd::bytes::u64_from_le_bytes(bytes)
    }

    fn to_bytes(self) -> (r: Vec<u8>) {
        vstd::bytes::u64_to_le_bytes(self)
    }

    proof fn lemma_byte_count() {
    }

    proof fn lemma_bytes_roundtrip(self, bytes: Seq<u8>) {
        lemma_auto_spec_u64_to_from_le_bytes();
    }
}

impl Bytes for u128 {
    open spec fn byte_count() -> nat {
        16
    }

    open spec fn decode_bytes(bytes: Seq<u8>) -> u128 {
        spec_u128_from_le_bytes(bytes)
    }

    open spec fn encode_bytes(self) -> Seq<u8> {
        spec_u128_to_le_bytes(self)
    }

    fn size() -> (r: usize) {
        16
    }

    fn from_bytes(bytes: &[u8]) -> (r: u128) {
        vstd::bytes::u128_from_le_bytes(bytes)
    }

    fn to_bytes(self) -> (r: Vec<u8>) {
        vstd::bytes::u128_to_le_bytes(self)
    }

    proof fn lemma_byte_count() {
    }

    proof fn lemma_bytes_roundtrip(self, bytes: Seq<u8>) {
        lemma_auto_spec_u128_to_from_le_bytes();
    }
}

/// Encoding a value and decoding its bytes gives the value back, for each width; bytes of
/// the right length survive decoding and encoding again.
pub proof fn law_bytes_roundtrip<T: Bytes>(value: T, bytes: Seq<u8>)
    ensures
        T::decode_bytes(value.encode_bytes()) == value,
        bytes.len() == T::byte_count() ==> T::decode_bytes(bytes).encode_bytes() == bytes,
{
    value.lemma_bytes_roundtrip(bytes);
}

} // verus!
