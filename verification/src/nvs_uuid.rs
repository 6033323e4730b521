use vstd::prelude::*;

use byteorder::ReadBytesExt;

verus! {

/// The number of bytes of a stored uuid.
pub const UUID_LEN: usize = 16;

/// The number that `bytes` denote, most significant byte first.
pub open spec fn big_endian(bytes: Seq<u8>) -> nat
    decreases bytes.len(),
{
    if bytes.len() == 0 {
        0
    } else {
        big_endian(bytes.drop_last()) * 256 + bytes.last() as nat
    }
}

/// The bytes of a version-4 uuid: version 4 in the high half of byte 6,
/// the variant bits `10` at the top of byte 8.
pub open spec fn is_v4_uuid(bytes: Seq<u8>) -> bool {
    &&& bytes.len() == UUID_LEN
    &&& bytes[6] & 0xf0 == 0x40
    &&& bytes[8] & 0xc0 == 0x80
}

/// What a start-up does about the uuid, by whether the storage holds one.
#[derive(PartialEq, Eq, Structural, Clone, Copy, Debug)]
pub enum UuidStep {
    /// Make a new uuid and store it.
    Generate,
    /// Read the stored uuid.
    Read,
}

/// The decision of a start-up: where the storage holds a uuid, a new one
/// is made and stored over it; where it holds none, the stored one is read.
pub fn uuid_step(contains: bool) -> (step: UuidStep)
    ensures
        step == (if contains { UuidStep::Generate } else { UuidStep::Read }),
{
    if contains {
        UuidStep::Generate
    } else {
        UuidStep::Read
    }
}

/// Reads a big-endian `u128` from the front of `bytes`.
///
/// Calls `byteorder::ReadBytesExt::read_u128::<BigEndian>` on the slice as a
/// reader: it reads exactly 16 bytes and fails when fewer are there. The
/// contract claims that the first 16 bytes, taken most significant first,
/// are the result, and that it fails exactly on a shorter slice.
#[verifier::external_body]
fn read_u128_big_endian(bytes: &[u8]) -> (r: Option<u128>)
    ensures
        bytes@.len() >= 16 ==> r == Some(big_endian(bytes@.take(16)) as u128),
        bytes@.len() < 16 ==> r is None,
{
    let mut reader = bytes;
    reader.read_u128::<byteorder::BigEndian>().ok()
}

/// The bytes of a new random version-4 uuid.
///
/// Calls `uuid::Uuid::new_v4` and takes its bytes. The result is random;
/// the contract claims what the crate's source fixes of every outcome: the
/// version and variant bits. It panics where the operating system gives no
/// random bytes, which no precondition here can rule out.
#[verifier::external_body]
fn new_v4_bytes() -> (bytes: [u8; 16])
    ensures
        is_v4_uuid(bytes@),
{
    *uuid::Uuid::new_v4().as_bytes()
}

/// Sixteen bytes denote a number that fits in a `u128`.
proof fn lemma_big_endian_fits(bytes: Seq<u8>)
    requires
        bytes.len() <= UUID_LEN,
    ensures
        big_endian(bytes) <= u128::MAX,
{
    lemma_big_endian_bound(bytes);
    if bytes.len() < 16 {
        vstd::arithmetic::power::lemma_pow_strictly_increases(256, bytes.len(), 16);
    }
    assert(vstd::arithmetic::power::pow(256, 16) == 0x1_0000_0000_0000_0000_0000_0000_0000_0000) by {
        reveal_with_fuel(vstd::arithmetic::power::pow, 17);
    }
}

proof fn lemma_big_endian_bound(bytes: Seq<u8>)
    ensures
        big_endian(bytes) < vstd::arithmetic::power::pow(256, bytes.len()),
    decreases bytes.len(),
{
    reveal(vstd::arithmetic::power::pow);
    if bytes.len() > 0 {
        lemma_big_endian_bound(bytes.drop_last());
        let p = vstd::arithmetic::power::pow(256, (bytes.len() - 1) as nat);
        let v = big_endian(bytes.drop_last());
        assert(v * 256 + bytes.last() < p * 256) by (nonlinear_arith)
            requires
                v < p,
                bytes.last() < 256,
        ;
    }
}

/// The uuid that the stored bytes hold.
pub fn uuid_from_stored(stored: &[u8]) -> (uuid: u128)
    requires
        stored@.len() >= UUID_LEN,
    ensures
        uuid == big_endian(stored@.take(UUID_LEN as int)),
{
    proof {
        lemma_big_endian_fits(stored@.take(UUID_LEN as int));
    }
    read_u128_big_endian(stored).unwrap()
}

/// A new uuid: the bytes to store and the number they denote.
pub fn new_uuid() -> (r: ([u8; 16], u128))
    ensures
        is_v4_uuid(r.0@),
        r.1 == big_endian(r.0@),
{
    let bytes = new_v4_bytes();
    let mut value: u128 = 0;
    let mut i: usize = 0;
    while i < UUID_LEN
        invariant
            i <= UUID_LEN,
            bytes@.len() == UUID_LEN,
            value == big_endian(bytes@.take(i as int)),
        decreases UUID_LEN - i,
    {
        proof {
            assert(bytes@.take(i + 1).drop_last() =~= bytes@.take(i as int));
            lemma_big_endian_fits(bytes@.take(i + 1));
        }
        value = value * 256 + bytes[i] as u128;
        i = i + 1;
    }
    assert(bytes@.take(16) =~= bytes@);
    (bytes, value)
}

/// The uuid read from stored bytes is the uuid that was returned when those
/// bytes were made: what `uuid_from_stored` gives of the bytes of
/// `new_uuid` is the number that `new_uuid` gave with them.
pub proof fn lemma_stored_uuid_reads_back(bytes: Seq<u8>)
    requires
        bytes.len() == UUID_LEN,
    ensures
        big_endian(bytes.take(UUID_LEN as int)) == big_endian(bytes),
{
    assert(bytes.take(UUID_LEN as int) =~= bytes);
}

/// Different stored bytes of one length hold different uuids.
pub proof fn lemma_big_endian_injective(a: Seq<u8>, b: Seq<u8>)
    requires
        a.len() == b.len(),
        big_endian(a) == big_endian(b),
    ensures
        a == b,
    decreases a.len(),
{
    if a.len() > 0 {
        let (va, vb) = (big_endian(a.drop_last()), big_endian(b.drop_last()));
        let (la, lb) = (a.last() as int, b.last() as int);
        assert(va == vb && la == lb) by (nonlinear_arith)
            requires
                va * 256 + la == vb * 256 + lb,
                0 <= la < 256,
                0 <= lb < 256,
                va >= 0,
                vb >= 0,
        ;
        lemma_big_endian_injective(a.drop_last(), b.drop_last());
        assert(a =~= a.drop_last().push(a.last()));
        assert(b =~= b.drop_last().push(b.last()));
    } else {
        assert(a =~= b);
    }
}

} // verus!
