//! The chain-level values that a suite is configured with.
//!
//! They come from the `ethers` crate and pass through this library as they
//! are. All that the library asks of any of them is which bytes a piece of
//! bytecode holds.

use ethers::abi::Abi;
use ethers::abi::Address;
use ethers::types::Bytes;
use ethers::types::U256;
use vstd::prelude::*;

verus! {

/// `ethers::abi::Abi`, the interface of a contract. Nothing is known of
/// what is inside.
#[verifier::external_type_specification]
#[verifier::external_body]
pub struct ExAbi(Abi);

/// `ethers::abi::Address`, a 20-byte account address. Nothing is known of
/// what is inside.
#[verifier::external_type_specification]
#[verifier::external_body]
pub struct ExAddress(Address);

/// `ethers::types::Bytes`, a run of bytes. What it holds goes by the name
/// `code_of`.
#[verifier::external_type_specification]
#[verifier::external_body]
pub struct ExBytes(Bytes);

/// `ethers::types::U256`, a 256-bit unsigned integer. Nothing is known of
/// what is inside.
#[verifier::external_type_specification]
#[verifier::external_body]
pub struct ExU256(U256);

/// The bytes that `b` holds, in order.
pub uninterp spec fn code_of(b: Bytes) -> Seq<u8>;

/// Calls `AsRef<[u8]>::as_ref` of `ethers::types::Bytes`, which hands out
/// the bytes held as a slice. Not proved: that the slice is what `code_of`
/// names, which is how that name gets its meaning.
#[verifier::external_body]
pub(crate) fn code_bytes(b: &Bytes) -> (s: &[u8])
    ensures
        s@ == code_of(*b),
{
    b.as_ref()
}

/// Calls `Clone::clone` of `ethers::types::Bytes`, derived over a
/// `bytes::Bytes`, whose clone is a second handle to the same bytes. Not
/// proved: that the clone holds the bytes of `b`.
#[verifier::external_body]
pub(crate) fn clone_code(b: &Bytes) -> (c: Bytes)
    ensures
        code_of(c) == code_of(*b),
{
    b.clone()
}

} // verus!
