//! Calls into the outside hash and checksum crates, one trusted wrapper each.
//!
//! What a hash function returns is named, not restated: each `*_of` spec
//! function stands for the outside function's value on its arguments.
use vstd::prelude::*;

verus! {

/// std's `io::Error`, carried through as the failure of a cursor read.
#[verifier::external_type_specification]
#[verifier::external_body]
pub struct ExIoError(std::io::Error);

pub uninterp spec fn crc_16_arc_of(data: Seq<u8>) -> u16;

/// Relies on crc::Crc::<u16> with crc::CRC_16_ARC: the checksum of the bytes.
#[verifier::external_body]
pub(crate) fn crc_16_arc(data: &[u8]) -> (r: u16)
    ensures
        r == crc_16_arc_of(data@),
{
    crc::Crc::<u16>::new(&crc::CRC_16_ARC).checksum(data)
}

pub uninterp spec fn crc_32_iso_hdlc_of(data: Seq<u8>) -> u32;

/// Relies on crc::Crc::<u32> with crc::CRC_32_ISO_HDLC: the checksum of the bytes.
#[verifier::external_body]
pub(crate) fn crc_32_iso_hdlc(data: &[u8]) -> (r: u32)
    ensures
        r == crc_32_iso_hdlc_of(data@),
{
    crc::Crc::<u32>::new(&crc::CRC_32_ISO_HDLC).checksum(data)
}

pub uninterp spec fn crc_64_redis_of(data: Seq<u8>) -> u64;

/// Relies on crc::Crc::<u64> with crc::CRC_64_REDIS: the checksum of the bytes.
#[verifier::external_body]
pub(crate) fn crc_64_redis(data: &[u8]) -> (r: u64)
    ensures
        r == crc_64_redis_of(data@),
{
    crc::Crc::<u64>::new(&crc::CRC_64_REDIS).checksum(data)
}

pub uninterp spec fn crc16_arc_of(data: Seq<u8>) -> u16;

/// Relies on crc16::State::<crc16::ARC>::calculate: the checksum of the bytes.
#[verifier::external_body]
pub(crate) fn crc16_arc(data: &[u8]) -> (r: u16)
    ensures
        r == crc16_arc_of(data@),
{
    crc16::State::<crc16::ARC>::calculate(data)
}

pub uninterp spec fn crc32fast_of(data: Seq<u8>) -> u32;

/// Relies on crc32fast::hash: the CRC-32 of the bytes.
#[verifier::external_body]
pub(crate) fn crc32fast_hash(data: &[u8]) -> (r: u32)
    ensures
        r == crc32fast_of(data@),
{
    crc32fast::hash(data)
}

pub uninterp spec fn crc64_of(data: Seq<u8>) -> u64;

/// Relies on crc64::crc64 started from 0: the checksum of the bytes.
#[verifier::external_body]
pub(crate) fn crc64_jones(data: &[u8]) -> (r: u64)
    ensures
        r == crc64_of(data@),
{
    crc64::crc64(0, data)
}

pub uninterp spec fn twox_xxh32_of(data: Seq<u8>, seed: u32) -> u32;

/// Relies on twox_hash::XxHash32::oneshot: the hash of the bytes under the seed.
#[verifier::external_body]
pub(crate) fn twox_xxh32(data: &[u8], seed: u32) -> (r: u32)
    ensures
        r == twox_xxh32_of(data@, seed),
{
    twox_hash::XxHash32::oneshot(seed, data)
}

pub uninterp spec fn twox_xxh64_of(data: Seq<u8>, seed: u64) -> u64;

/// Relies on twox_hash::XxHash64::oneshot: the hash of the bytes under the seed.
#[verifier::external_body]
pub(crate) fn twox_xxh64(data: &[u8], seed: u64) -> (r: u64)
    ensures
        r == twox_xxh64_of(data@, seed),
{
    twox_hash::XxHash64::oneshot(seed, data)
}

pub uninterp spec fn twox_xxh3_64_of(data: Seq<u8>, seed: u64) -> u64;

/// Relies on twox_hash::XxHash3_64::oneshot_with_seed: the hash of the bytes under the seed.
#[verifier::external_body]
pub(crate) fn twox_xxh3_64(data: &[u8], seed: u64) -> (r: u64)
    ensures
        r == twox_xxh3_64_of(data@, seed),
{
    twox_hash::XxHash3_64::oneshot_with_seed(seed, data)
}

pub uninterp spec fn twox_xxh3_128_of(data: Seq<u8>, seed: u64) -> u128;

/// Relies on twox_hash::XxHash3_128::oneshot_with_seed: the hash of the bytes under the seed.
#[verifier::external_body]
pub(crate) fn twox_xxh3_128(data: &[u8], seed: u64) -> (r: u128)
    ensures
        r == twox_xxh3_128_of(data@, seed),
{
    twox_hash::XxHash3_128::oneshot_with_seed(seed, data)
}

pub uninterp spec fn seahash_of(data: Seq<u8>) -> u64;

/// Relies on seahash::hash: the hash of the bytes.
#[verifier::external_body]
pub(crate) fn seahash_hash(data: &[u8]) -> (r: u64)
    ensures
        r == seahash_of(data@),
{
    seahash::hash(data)
}

pub uninterp spec fn xxh32_of(data: Seq<u8>, seed: u32) -> u32;

/// Relies on xxhash_rust::xxh32::xxh32: the hash of the bytes under the seed.
#[verifier::external_body]
pub(crate) fn xxh32(data: &[u8], seed: u32) -> (r: u32)
    ensures
        r == xxh32_of(data@, seed),
{
    xxhash_rust::xxh32::xxh32(data, seed)
}

pub uninterp spec fn xxh64_of(data: Seq<u8>, seed: u64) -> u64;

/// Relies on xxhash_rust::xxh64::xxh64: the hash of the bytes under the seed.
#[verifier::external_body]
pub(crate) fn xxh64(data: &[u8], seed: u64) -> (r: u64)
    ensures
        r == xxh64_of(data@, seed),
{
    xxhash_rust::xxh64::xxh64(data, seed)
}

pub uninterp spec fn xxh3_64_of(data: Seq<u8>, seed: u64) -> u64;

/// Relies on xxhash_rust::xxh3::xxh3_64_with_seed: the hash of the bytes under the seed.
#[verifier::external_body]
pub(crate) fn xxh3_64(data: &[u8], seed: u64) -> (r: u64)
    ensures
        r == xxh3_64_of(data@, seed),
{
    xxhash_rust::xxh3::xxh3_64_with_seed(data, seed)
}

pub uninterp spec fn xxh3_128_of(data: Seq<u8>, seed: u64) -> u128;

/// Relies on xxhash_rust::xxh3::xxh3_128_with_seed: the hash of the bytes under the seed.
#[verifier::external_body]
pub(crate) fn xxh3_128(data: &[u8], seed: u64) -> (r: u128)
    ensures
        r == xxh3_128_of(data@, seed),
{
    xxhash_rust::xxh3::xxh3_128_with_seed(data, seed)
}

pub uninterp spec fn const_xxh32_of(data: Seq<u8>, seed: u32) -> u32;

/// Relies on xxhash_rust::const_xxh32::xxh32: the hash of the bytes under the seed.
#[verifier::external_body]
pub(crate) fn const_xxh32(data: &[u8], seed: u32) -> (r: u32)
    ensures
        r == const_xxh32_of(data@, seed),
{
    xxhash_rust::const_xxh32::xxh32(data, seed)
}

pub uninterp spec fn const_xxh64_of(data: Seq<u8>, seed: u64) -> u64;

/// Relies on xxhash_rust::const_xxh64::xxh64: the hash of the bytes under the seed.
#[verifier::external_body]
pub(crate) fn const_xxh64(data: &[u8], seed: u64) -> (r: u64)
    ensures
        r == const_xxh64_of(data@, seed),
{
    xxhash_rust::const_xxh64::xxh64(data, seed)
}

pub uninterp spec fn const_xxh3_64_of(data: Seq<u8>, seed: u64) -> u64;

/// Relies on xxhash_rust::const_xxh3::xxh3_64_with_seed: the hash of the bytes under the seed.
#[verifier::external_body]
pub(crate) fn const_xxh3_64(data: &[u8], seed: u64) -> (r: u64)
    ensures
        r == const_xxh3_64_of(data@, seed),
{
    xxhash_rust::const_xxh3::xxh3_64_with_seed(data, seed)
}

pub uninterp spec fn const_xxh3_128_of(data: Seq<u8>, seed: u64) -> u128;

/// Relies on xxhash_rust::const_xxh3::xxh3_128_with_seed: the hash of the bytes under the seed.
#[verifier::external_body]
pub(crate) fn const_xxh3_128(data: &[u8], seed: u64) -> (r: u128)
    ensures
        r == const_xxh3_128_of(data@, seed),
{
    xxhash_rust::const_xxh3::xxh3_128_with_seed(data, seed)
}

pub uninterp spec fn murmur3_32_of(data: Seq<u8>, seed: u32) -> u32;

/// Relies on murmur3::murmur3_32 over a `std::io::Cursor` of the bytes: the hash of the
/// bytes under the seed. It fails only when its reader fails, and reading from
/// a `Cursor` over memory does not fail.
/// It counts the bytes it has read in a `u32`, so the input stays under 2^32
/// bytes.
#[verifier::external_body]
pub(crate) fn murmur3_32(data: &[u8], seed: u32) -> (r: Result<u32, std::io::Error>)
    requires
        data@.len() < 0x1_0000_0000,
    ensures
        r is Ok && r->Ok_0 == murmur3_32_of(data@, seed),
{
    murmur3::murmur3_32(&mut std::io::Cursor::new(data), seed)
}

pub uninterp spec fn murmur3_x64_128_of(data: Seq<u8>, seed: u32) -> u128;

/// Relies on murmur3::murmur3_x64_128 over a `std::io::Cursor` of the bytes: the hash of the
/// bytes under the seed. It fails only when its reader fails, and reading from
/// a `Cursor` over memory does not fail.
#[verifier::external_body]
pub(crate) fn murmur3_x64_128(data: &[u8], seed: u32) -> (r: Result<u128, std::io::Error>)
    ensures
        r is Ok && r->Ok_0 == murmur3_x64_128_of(data@, seed),
{
    murmur3::murmur3_x64_128(&mut std::io::Cursor::new(data), seed)
}

pub uninterp spec fn murmur3_x86_128_of(data: Seq<u8>, seed: u32) -> u128;

/// Relies on murmur3::murmur3_x86_128 over a `std::io::Cursor` of the bytes: the hash of the
/// bytes under the seed. It fails only when its reader fails, and reading from
/// a `Cursor` over memory does not fail.
#[verifier::external_body]
pub(crate) fn murmur3_x86_128(data: &[u8], seed: u32) -> (r: Result<u128, std::io::Error>)
    ensures
        r is Ok && r->Ok_0 == murmur3_x86_128_of(data@, seed),
{
    murmur3::murmur3_x86_128(&mut std::io::Cursor::new(data), seed)
}

pub uninterp spec fn md5_of(data: Seq<u8>) -> Seq<u8>;

/// Relies on md5::compute: the 16-byte MD5 digest of the bytes.
#[verifier::external_body]
pub(crate) fn md5_digest(data: &[u8]) -> (r: Vec<u8>)
    ensures
        r@ == md5_of(data@),
        r@.len() == 16,
{
    md5::compute(data).0.to_vec()
}

pub uninterp spec fn blake2b_512_of(data: Seq<u8>) -> Seq<u8>;

/// Relies on digest::Digest::digest on blake2::Blake2b512: the 64-byte digest of the bytes.
#[verifier::external_body]
pub(crate) fn blake2b_512_digest(data: &[u8]) -> (r: Vec<u8>)
    ensures
        r@ == blake2b_512_of(data@),
        r@.len() == 64,
{
    <blake2::Blake2b512 as digest::Digest>::digest(data).to_vec()
}

pub uninterp spec fn blake2s_256_of(data: Seq<u8>) -> Seq<u8>;

/// Relies on digest::Digest::digest on blake2::Blake2s256: the 32-byte digest of the bytes.
#[verifier::external_body]
pub(crate) fn blake2s_256_digest(data: &[u8]) -> (r: Vec<u8>)
    ensures
        r@ == blake2s_256_of(data@),
        r@.len() == 32,
{
    <blake2::Blake2s256 as digest::Digest>::digest(data).to_vec()
}

pub uninterp spec fn sha1_of(data: Seq<u8>) -> Seq<u8>;

/// Relies on digest::Digest::digest on sha1::Sha1: the 20-byte digest of the bytes.
#[verifier::external_body]
pub(crate) fn sha1_digest(data: &[u8]) -> (r: Vec<u8>)
    ensures
        r@ == sha1_of(data@),
        r@.len() == 20,
{
    <sha1::Sha1 as digest::Digest>::digest(data).to_vec()
}

pub uninterp spec fn keccak_224_of(data: Seq<u8>) -> Seq<u8>;

/// Relies on digest::Digest::digest on sha3::Keccak224: the 28-byte digest of the bytes.
#[verifier::external_body]
pub(crate) fn keccak_224_digest(data: &[u8]) -> (r: Vec<u8>)
    ensures
        r@ == keccak_224_of(data@),
        r@.len() == 28,
{
    <sha3::Keccak224 as digest::Digest>::digest(data).to_vec()
}

pub uninterp spec fn keccak_256_of(data: Seq<u8>) -> Seq<u8>;

/// Relies on digest::Digest::digest on sha3::Keccak256: the 32-byte digest of the bytes.
#[verifier::external_body]
pub(crate) fn keccak_256_digest(data: &[u8]) -> (r: Vec<u8>)
    ensures
        r@ == keccak_256_of(data@),
        r@.len() == 32,
{
    <sha3::Keccak256 as digest::Digest>::digest(data).to_vec()
}

pub uninterp spec fn keccak_384_of(data: Seq<u8>) -> Seq<u8>;

/// Relies on digest::Digest::digest on sha3::Keccak384: the 48-byte digest of the bytes.
#[verifier::external_body]
pub(crate) fn keccak_384_digest(data: &[u8]) -> (r: Vec<u8>)
    ensures
        r@ == keccak_384_of(data@),
        r@.len() == 48,
{
    <sha3::Keccak384 as digest::Digest>::digest(data).to_vec()
}

pub uninterp spec fn keccak_512_of(data: Seq<u8>) -> Seq<u8>;

/// Relies on digest::Digest::digest on sha3::Keccak512: the 64-byte digest of the bytes.
#[verifier::external_body]
pub(crate) fn keccak_512_digest(data: &[u8]) -> (r: Vec<u8>)
    ensures
        r@ == keccak_512_of(data@),
        r@.len() == 64,
{
    <sha3::Keccak512 as digest::Digest>::digest(data).to_vec()
}

pub uninterp spec fn keccak_256_full_of(data: Seq<u8>) -> Seq<u8>;

/// Relies on digest::Digest::digest on sha3::Keccak256Full: the 200-byte digest of the bytes.
#[verifier::external_body]
pub(crate) fn keccak_256_full_digest(data: &[u8]) -> (r: Vec<u8>)
    ensures
        r@ == keccak_256_full_of(data@),
        r@.len() == 200,
{
    <sha3::Keccak256Full as digest::Digest>::digest(data).to_vec()
}

pub uninterp spec fn sha3_224_of(data: Seq<u8>) -> Seq<u8>;

/// Relies on digest::Digest::digest on sha3::Sha3_224: the 28-byte digest of the bytes.
#[verifier::external_body]
pub(crate) fn sha3_224_digest(data: &[u8]) -> (r: Vec<u8>)
    ensures
        r@ == sha3_224_of(data@),
        r@.len() == 28,
{
    <sha3::Sha3_224 as digest::Digest>::digest(data).to_vec()
}

pub uninterp spec fn sha3_256_of(data: Seq<u8>) -> Seq<u8>;

/// Relies on digest::Digest::digest on sha3::Sha3_256: the 32-byte digest of the bytes.
#[verifier::external_body]
pub(crate) fn sha3_256_digest(data: &[u8]) -> (r: Vec<u8>)
    ensures
        r@ == sha3_256_of(data@),
        r@.len() == 32,
{
    <sha3::Sha3_256 as digest::Digest>::digest(data).to_vec()
}

pub uninterp spec fn sha3_384_of(data: Seq<u8>) -> Seq<u8>;

/// Relies on digest::Digest::digest on sha3::Sha3_384: the 48-byte digest of the bytes.
#[verifier::external_body]
pub(crate) fn sha3_384_digest(data: &[u8]) -> (r: Vec<u8>)
    ensures
        r@ == sha3_384_of(data@),
        r@.len() == 48,
{
    <sha3::Sha3_384 as digest::Digest>::digest(data).to_vec()
}

pub uninterp spec fn sha3_512_of(data: Seq<u8>) -> Seq<u8>;

/// Relies on digest::Digest::digest on sha3::Sha3_512: the 64-byte digest of the bytes.
#[verifier::external_body]
pub(crate) fn sha3_512_digest(data: &[u8]) -> (r: Vec<u8>)
    ensures
        r@ == sha3_512_of(data@),
        r@.len() == 64,
{
    <sha3::Sha3_512 as digest::Digest>::digest(data).to_vec()
}

pub uninterp spec fn sha2_224_of(data: Seq<u8>) -> Seq<u8>;

/// Relies on digest::Digest::digest on sha2::Sha224: the 28-byte digest of the bytes.
#[verifier::external_body]
pub(crate) fn sha2_224_digest(data: &[u8]) -> (r: Vec<u8>)
    ensures
        r@ == sha2_224_of(data@),
        r@.len() == 28,
{
    <sha2::Sha224 as digest::Digest>::digest(data).to_vec()
}

pub uninterp spec fn sha2_256_of(data: Seq<u8>) -> Seq<u8>;

/// Relies on digest::Digest::digest on sha2::Sha256: the 32-byte digest of the bytes.
#[verifier::external_body]
pub(crate) fn sha2_256_digest(data: &[u8]) -> (r: Vec<u8>)
    ensures
        r@ == sha2_256_of(data@),
        r@.len() == 32,
{
    <sha2::Sha256 as digest::Digest>::digest(data).to_vec()
}

pub uninterp spec fn sha2_384_of(data: Seq<u8>) -> Seq<u8>;

/// Relies on digest::Digest::digest on sha2::Sha384: the 48-byte digest of the bytes.
#[verifier::external_body]
pub(crate) fn sha2_384_digest(data: &[u8]) -> (r: Vec<u8>)
    ensures
        r@ == sha2_384_of(data@),
        r@.len() == 48,
{
    <sha2::Sha384 as digest::Digest>::digest(data).to_vec()
}

pub uninterp spec fn sha2_512_of(data: Seq<u8>) -> Seq<u8>;

/// Relies on digest::Digest::digest on sha2::Sha512: the 64-byte digest of the bytes.
#[verifier::external_body]
pub(crate) fn sha2_512_digest(data: &[u8]) -> (r: Vec<u8>)
    ensures
        r@ == sha2_512_of(data@),
        r@.len() == 64,
{
    <sha2::Sha512 as digest::Digest>::digest(data).to_vec()
}

pub uninterp spec fn sha2_512_224_of(data: Seq<u8>) -> Seq<u8>;

/// Relies on digest::Digest::digest on sha2::Sha512_224: the 28-byte digest of the bytes.
#[verifier::external_body]
pub(crate) fn sha2_512_224_digest(data: &[u8]) -> (r: Vec<u8>)
    ensures
        r@ == sha2_512_224_of(data@),
        r@.len() == 28,
{
    <sha2::Sha512_224 as digest::Digest>::digest(data).to_vec()
}

pub uninterp spec fn sha2_512_256_of(data: Seq<u8>) -> Seq<u8>;

/// Relies on digest::Digest::digest on sha2::Sha512_256: the 32-byte digest of the bytes.
#[verifier::external_body]
pub(crate) fn sha2_512_256_digest(data: &[u8]) -> (r: Vec<u8>)
    ensures
        r@ == sha2_512_256_of(data@),
        r@.len() == 32,
{
    <sha2::Sha512_256 as digest::Digest>::digest(data).to_vec()
}

pub uninterp spec fn sm3_of(data: Seq<u8>) -> Seq<u8>;

/// Relies on digest::Digest::digest on sm3::Sm3: the 32-byte digest of the bytes.
#[verifier::external_body]
pub(crate) fn sm3_digest(data: &[u8]) -> (r: Vec<u8>)
    ensures
        r@ == sm3_of(data@),
        r@.len() == 32,
{
    <sm3::Sm3 as digest::Digest>::digest(data).to_vec()
}

/// Relies on sha256::digest, whose body is `hex::encode` of sha2's SHA-256
/// digest of the bytes.
#[verifier::external_body]
pub(crate) fn sha256_hex(data: &[u8]) -> (r: String)
    ensures
        r@ == crate::text::bytes_hex(sha2_256_of(data@)),
        r@.len() == 64,
{
    sha256::digest(data)
}

/// Relies on hex::encode: each byte as two lowercase hexadecimal digits.
#[verifier::external_body]
pub(crate) fn hex_encode(data: &[u8]) -> (r: String)
    ensures
        r@ == crate::text::bytes_hex(data@),
{
    hex::encode(data)
}

/// Relies on the `Debug` impl of std's `io::Error` for a text form of the
/// error, which always names the kind or the source of the error.
#[verifier::external_body]
pub(crate) fn io_error_text(e: &std::io::Error) -> (r: String)
    ensures
        r@.len() > 0,
{
    format!("{:?}", e)
}

} // verus!
