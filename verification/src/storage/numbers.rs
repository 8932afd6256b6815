//! Numbers as components.

use crate::storage::component::{Component, UniqueId};
use crate::storage::ComponentId;
use vstd::prelude::*;

verus! {

/// The identifier of `u32`. It is beyond those that are given to types one after the other.
pub const U32_ID: ComponentId = 0xffff_fffe;

/// The identifier of `u64`.
pub const U64_ID: ComponentId = 0xffff_ffff;

impl UniqueId for u32 {
    open spec fn spec_id() -> ComponentId {
        U32_ID
    }

    fn id() -> (id: ComponentId) {
        U32_ID
    }
}

impl Component for u32 {
    /// The bytes are those of the number, the least significant one first.
    open spec fn encoded_by(self, bytes: Seq<u8>) -> bool {
        bytes == vstd::bytes::spec_u32_to_le_bytes(self)
    }

    proof fn lemma_encoded(a: Self, b: Self) {
        vstd::bytes::lemma_auto_spec_u32_to_from_le_bytes();
        broadcast use vstd::layout::layout_of_primitives;
    }

    fn into_bytes(self) -> (bytes: Vec<u8>) {
        vstd::bytes::u32_to_le_bytes(self)
    }

    fn from_bytes(bytes: &[u8]) -> (value: Self) {
        proof {
            vstd::bytes::lemma_auto_spec_u32_to_from_le_bytes();
        }
        vstd::bytes::u32_from_le_bytes(bytes)
    }
}

impl UniqueId for u64 {
    open spec fn spec_id() -> ComponentId {
        U64_ID
    }

    fn id() -> (id: ComponentId) {
        U64_ID
    }
}

impl Component for u64 {
    /// The bytes are those of the number, the least significant one first.
    open spec fn encoded_by(self, bytes: Seq<u8>) -> bool {
        bytes == vstd::bytes::spec_u64_to_le_bytes(self)
    }

    proof fn lemma_encoded(a: Self, b: Self) {
        vstd::bytes::lemma_auto_spec_u64_to_from_le_bytes();
        broadcast use vstd::layout::layout_of_primitives;
    }

    fn into_bytes(self) -> (bytes: Vec<u8>) {
        vstd::bytes::u64_to_le_bytes(self)
    }

    fn from_bytes(bytes: &[u8]) -> (value: Self) {
        proof {
            vstd::bytes::lemma_auto_spec_u64_to_from_le_bytes();
        }
        vstd::bytes::u64_from_le_bytes(bytes)
    }
}

/// A number is stored as its bytes, the least significant one first, so that it is read back as
/// it was. The two types of numbers are different components.
pub proof fn lemma_numbers_are_read_back(a: u32, b: u64)
    ensures
        a.encoded_by(vstd::bytes::spec_u32_to_le_bytes(a)),
        b.encoded_by(vstd::bytes::spec_u64_to_le_bytes(b)),
        forall|bytes: Seq<u8>| #[trigger]
            a.encoded_by(bytes) ==> bytes.len() == 4 && vstd::bytes::spec_u32_from_le_bytes(bytes)
                == a,
        forall|bytes: Seq<u8>| #[trigger]
            b.encoded_by(bytes) ==> bytes.len() == 8 && vstd::bytes::spec_u64_from_le_bytes(bytes)
                == b,
        u32::spec_id() == 0xffff_fffe,
        u64::spec_id() == 0xffff_ffff,
{
    vstd::bytes::lemma_auto_spec_u32_to_from_le_bytes();
    vstd::bytes::lemma_auto_spec_u64_to_from_le_bytes();
}

} // verus!
