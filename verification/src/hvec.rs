//! Trusted declarations for the fixed-capacity vectors of the `heapless`
//! crate, which carry the short outbound frames and the reply buffers of the
//! `ftdx10` command set.
//!
//! The vector type is declared opaque; what one holds is named by an
//! uninterpreted contents function per instantiation, and each method the
//! codec calls is wrapped with a contract over those names.

use vstd::prelude::*;

use crate::RX_BUFFER_SIZE;

verus! {

#[verifier::external_type_specification]
#[verifier::external_body]
#[verifier::reject_recursive_types(T)]
pub struct ExHeaplessVec<T, const N: usize>(heapless::Vec<T, N>);

/// The bytes held by a fixed-capacity frame buffer.
pub uninterp spec fn hvec_bytes(v: heapless::Vec<u8, 8>) -> Seq<u8>;

/// The characters held by a fixed-capacity parameter buffer.
pub uninterp spec fn hvec_chars(v: heapless::Vec<char, 8>) -> Seq<char>;

/// The bytes held by a reply receive buffer.
pub uninterp spec fn hvec_rx_bytes(v: heapless::Vec<u8, RX_BUFFER_SIZE>) -> Seq<u8>;

/// Relies on heapless::Vec::new: a new vector is empty.
#[verifier::external_body]
pub(crate) fn hv8_new() -> (r: heapless::Vec<u8, 8>)
    ensures
        hvec_bytes(r) == Seq::<u8>::empty(),
{
    heapless::Vec::new()
}

/// Relies on heapless::Vec::push: below capacity it appends the item and
/// returns Ok.
#[verifier::external_body]
pub(crate) fn hv8_push(v: &mut heapless::Vec<u8, 8>, b: u8)
    requires
        hvec_bytes(*old(v)).len() < 8,
    ensures
        hvec_bytes(*final(v)) == hvec_bytes(*old(v)).push(b),
{
    let _ = v.push(b);
}

/// Relies on heapless::Vec::new: a new vector is empty.
#[verifier::external_body]
pub(crate) fn hvc_new() -> (r: heapless::Vec<char, 8>)
    ensures
        hvec_chars(r) == Seq::<char>::empty(),
{
    heapless::Vec::new()
}

/// Relies on heapless::Vec::push: below capacity it appends the item and
/// returns Ok.
#[verifier::external_body]
pub(crate) fn hvc_push(v: &mut heapless::Vec<char, 8>, c: char)
    requires
        hvec_chars(*old(v)).len() < 8,
    ensures
        hvec_chars(*final(v)) == hvec_chars(*old(v)).push(c),
{
    let _ = v.push(c);
}

/// Relies on the slice view of heapless::Vec (its Deref impl): `len` counts
/// the items held.
#[verifier::external_body]
pub(crate) fn hvc_len(v: &heapless::Vec<char, 8>) -> (n: usize)
    ensures
        n == hvec_chars(*v).len(),
{
    v.len()
}

/// Relies on the slice view of heapless::Vec (its Deref impl): indexing below
/// `len` reads the item at that position.
#[verifier::external_body]
pub(crate) fn hvc_get(v: &heapless::Vec<char, 8>, i: usize) -> (c: char)
    requires
        i < hvec_chars(*v).len(),
    ensures
        c == hvec_chars(*v)[i as int],
{
    v[i]
}

/// Relies on the slice view of heapless::Vec (its Deref impl): `len` counts
/// the items held.
#[verifier::external_body]
pub(crate) fn hrx_len(v: &heapless::Vec<u8, RX_BUFFER_SIZE>) -> (n: usize)
    ensures
        n == hvec_rx_bytes(*v).len(),
{
    v.len()
}

/// Relies on the slice view of heapless::Vec (its Deref impl): `contains`
/// tells whether the byte occurs anywhere among the items held.
#[verifier::external_body]
pub(crate) fn hrx_contains(v: &heapless::Vec<u8, RX_BUFFER_SIZE>, b: u8) -> (r: bool)
    ensures
        r == hvec_rx_bytes(*v).contains(b),
{
    v.contains(&b)
}

/// Relies on the slice view of heapless::Vec (its Deref impl): indexing below
/// `len` reads the item at that position.
#[verifier::external_body]
pub(crate) fn hrx_get(v: &heapless::Vec<u8, RX_BUFFER_SIZE>, i: usize) -> (b: u8)
    requires
        i < hvec_rx_bytes(*v).len(),
    ensures
        b == hvec_rx_bytes(*v)[i as int],
{
    v[i]
}

} // verus!
