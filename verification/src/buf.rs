//! The byte buffers of the `bytes` crate, as the framing code sees them.
//!
//! `Bytes` and `BytesMut` are opaque to Verus; what they hold is named by
//! `bytes_view` and `bytes_mut_view`, and each method that the framing code
//! calls has a wrapper whose contract says what it does to those contents.
use vstd::prelude::*;

verus! {

#[verifier::external_type_specification]
#[verifier::external_body]
pub struct ExBytes(bytes::Bytes);

#[verifier::external_type_specification]
#[verifier::external_body]
pub struct ExBytesMut(bytes::BytesMut);

/// The bytes that a `bytes::Bytes` holds, from its read position on.
pub uninterp spec fn bytes_view(b: bytes::Bytes) -> Seq<u8>;

/// The bytes that a `bytes::BytesMut` holds.
pub uninterp spec fn bytes_mut_view(b: bytes::BytesMut) -> Seq<u8>;

/// Big-endian bytes of a `u16`: the high byte first.
pub open spec fn be16(n: u16) -> Seq<u8> {
    seq![(n / 256) as u8, (n % 256) as u8]
}

/// The `u16` whose big-endian bytes are `hi`, `lo`.
pub open spec fn be16_value(hi: u8, lo: u8) -> u16 {
    (hi * 256 + lo) as u16
}

/// `BytesMut::with_capacity`: a new, empty buffer. It allocates through
/// `Vec::with_capacity`, which panics above `isize::MAX` bytes.
#[verifier::external_body]
pub(crate) fn bytes_mut_with_capacity(capacity: usize) -> (b: bytes::BytesMut)
    requires
        capacity <= isize::MAX,
    ensures
        bytes_mut_view(b) == Seq::<u8>::empty(),
{
    bytes::BytesMut::with_capacity(capacity)
}

/// `BufMut::put_u8` on a `BytesMut`: appends the byte. The buffer grows
/// through `reserve`, which panics past `isize::MAX` bytes.
#[verifier::external_body]
pub(crate) fn bytes_mut_put_u8(buf: &mut bytes::BytesMut, n: u8)
    requires
        bytes_mut_view(*old(buf)).len() + 1 <= isize::MAX,
    ensures
        bytes_mut_view(*final(buf)) == bytes_mut_view(*old(buf)).push(n),
{
    bytes::BufMut::put_u8(buf, n)
}

/// `BufMut::put_u16` on a `BytesMut`: appends the two bytes of `n` in
/// big-endian order.
#[verifier::external_body]
pub(crate) fn bytes_mut_put_u16(buf: &mut bytes::BytesMut, n: u16)
    requires
        bytes_mut_view(*old(buf)).len() + 2 <= isize::MAX,
    ensures
        bytes_mut_view(*final(buf)) == bytes_mut_view(*old(buf)) + be16(n),
{
    bytes::BufMut::put_u16(buf, n)
}

/// `BufMut::put_slice` on a `BytesMut`: appends the bytes of `src`.
#[verifier::external_body]
pub(crate) fn bytes_mut_put_slice(buf: &mut bytes::BytesMut, src: &[u8])
    requires
        bytes_mut_view(*old(buf)).len() + src@.len() <= isize::MAX,
    ensures
        bytes_mut_view(*final(buf)) == bytes_mut_view(*old(buf)) + src@,
{
    bytes::BufMut::put_slice(buf, src)
}

/// `BytesMut::freeze`: the same bytes, as an immutable `Bytes`.
#[verifier::external_body]
pub(crate) fn bytes_mut_freeze(buf: bytes::BytesMut) -> (b: bytes::Bytes)
    ensures
        bytes_view(b) == bytes_mut_view(buf),
{
    buf.freeze()
}

/// `Bytes` as a slice (its `Deref`): the bytes it holds.
#[verifier::external_body]
pub(crate) fn bytes_as_slice(b: &bytes::Bytes) -> (s: &[u8])
    ensures
        s@ == bytes_view(*b),
{
    b.as_ref()
}

/// `Buf::get_u8` on a `Bytes`: the first byte, which it consumes.
/// It panics on an empty buffer. Like every slice, the bytes a `Bytes`
/// holds number at most `isize::MAX`.
#[verifier::external_body]
pub(crate) fn bytes_get_u8(buf: &mut bytes::Bytes) -> (n: u8)
    requires
        bytes_view(*old(buf)).len() >= 1,
    ensures
        bytes_view(*old(buf)).len() <= isize::MAX,
        n == bytes_view(*old(buf))[0],
        bytes_view(*final(buf)) == bytes_view(*old(buf)).skip(1),
{
    bytes::Buf::get_u8(buf)
}

/// `Buf::get_u16` on a `Bytes`: the first two bytes read as a big-endian
/// `u16`, which it consumes. It panics on fewer than two bytes.
#[verifier::external_body]
pub(crate) fn bytes_get_u16(buf: &mut bytes::Bytes) -> (n: u16)
    requires
        bytes_view(*old(buf)).len() >= 2,
    ensures
        n == be16_value(bytes_view(*old(buf))[0], bytes_view(*old(buf))[1]),
        bytes_view(*final(buf)) == bytes_view(*old(buf)).skip(2),
{
    bytes::Buf::get_u16(buf)
}

/// `Buf::copy_to_slice` on a `Bytes`, into an array of `N` bytes: the first
/// `N` bytes, which it consumes. It panics on fewer than `N` bytes.
#[verifier::external_body]
pub(crate) fn bytes_copy_to_array<const N: usize>(buf: &mut bytes::Bytes) -> (a: [u8; N])
    requires
        bytes_view(*old(buf)).len() >= N,
    ensures
        a@ == bytes_view(*old(buf)).take(N as int),
        bytes_view(*final(buf)) == bytes_view(*old(buf)).skip(N as int),
{
    let mut a = [0u8; N];
    bytes::Buf::copy_to_slice(buf, &mut a);
    a
}

} // verus!
