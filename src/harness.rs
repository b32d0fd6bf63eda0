//! The harness: one calling convention for every algorithm, the timed run of
//! one case, the catalog of algorithms and the suite run over it.
use vstd::prelude::*;
use crate::algorithms;
use crate::input::{init_vec, input_bytes, lemma_empty_request_fixed};
use crate::normalize::{get_res_hash, get_res_result, get_res_string};
use crate::stat::Stat;
use crate::text::{bytes_hex, hex_text, lemma_bytes_hex_len, lemma_hex_text_digits};

verus! {

/// Relies on std's `Instant::now`: a reading of the monotonic clock.
pub assume_specification[ std::time::Instant::now ]() -> std::time::Instant;

/// Relies on std's `Instant::elapsed`: the time since the reading.
pub assume_specification[ std::time::Instant::elapsed ](i: &std::time::Instant) -> core::time::Duration;

/// Relies on std's `Duration::as_nanos`: the whole nanoseconds of a duration.
pub assume_specification[ core::time::Duration::as_nanos ](d: &core::time::Duration) -> u128;

#[verifier::external_type_specification]
#[verifier::external_body]
pub struct ExInstant(std::time::Instant);

/// Algorithms called on the whole buffer at once that return an integer.
#[allow(non_camel_case_types)]
#[derive(Clone, Copy, Debug, PartialEq, Eq)]
pub enum SliceHash {
    Crc16Arc,
    Crc32IsoHdlc,
    Crc64Redis,
    Crc16State,
    Crc32Fast,
    Crc64,
    TwoxXxHash32,
    TwoxXxHash64,
    TwoxXxHash3_64,
    TwoxXxHash3_128,
    SeaHash,
    Xxh32,
    Xxh64,
    Xxh3_64,
    Xxh3_128,
    ConstXxh32,
    ConstXxh64,
    ConstXxh3_64,
    ConstXxh3_128,
    Murmur3_32OfSlice,
    Murmur3X64_128OfSlice,
    Murmur3X86_128OfSlice,
}

/// Algorithms that read the buffer through a positioned cursor and may fail.
#[allow(non_camel_case_types)]
#[derive(Clone, Copy, Debug, PartialEq, Eq)]
pub enum CursorHash {
    Murmur3_32,
    Murmur3X64_128,
    Murmur3X86_128,
}

/// Algorithms that return a digest of fixed length in bytes.
#[allow(non_camel_case_types)]
#[derive(Clone, Copy, Debug, PartialEq, Eq)]
pub enum DigestHash {
    Md5,
    Blake2b512,
    Blake2s256,
    Sha1,
    Keccak224,
    Keccak256,
    Keccak384,
    Keccak512,
    Keccak256Full,
    Sha3_224,
    Sha3_256,
    Sha3_384,
    Sha3_512,
    Sha224,
    Sha256,
    Sha384,
    Sha512,
    Sha512_224,
    Sha512_256,
    Sm3,
}

/// Algorithms that return their digest already as text.
#[derive(Clone, Copy, Debug, PartialEq, Eq)]
pub enum TextHash {
    Sha256,
}

/// How a case calls its algorithm, and so which input shape it gets.
#[derive(Clone, Copy, Debug, PartialEq, Eq)]
pub enum Invocation {
    Slice(SliceHash),
    Cursor(CursorHash),
    Digest(DigestHash),
    Text(TextHash),
}

/// What an algorithm handed back, before it is put in text form.
pub enum RawResult {
    Number(u128),
    Fallible(Result<u128, std::io::Error>),
    Text(String),
}

/// The value of an integer algorithm on `data` under `seed`.
pub open spec fn slice_value(hash: SliceHash, data: Seq<u8>, seed: u32) -> nat {
    match hash {
        SliceHash::Crc16Arc => algorithms::crc_16_arc_of(data) as nat,
        SliceHash::Crc32IsoHdlc => algorithms::crc_32_iso_hdlc_of(data) as nat,
        SliceHash::Crc64Redis => algorithms::crc_64_redis_of(data) as nat,
        SliceHash::Crc16State => algorithms::crc16_arc_of(data) as nat,
        SliceHash::Crc32Fast => algorithms::crc32fast_of(data) as nat,
        SliceHash::Crc64 => algorithms::crc64_of(data) as nat,
        SliceHash::TwoxXxHash32 => algorithms::twox_xxh32_of(data, seed) as nat,
        SliceHash::TwoxXxHash64 => algorithms::twox_xxh64_of(data, seed as u64) as nat,
        SliceHash::TwoxXxHash3_64 => algorithms::twox_xxh3_64_of(data, seed as u64) as nat,
        SliceHash::TwoxXxHash3_128 => algorithms::twox_xxh3_128_of(data, seed as u64) as nat,
        SliceHash::SeaHash => algorithms::seahash_of(data) as nat,
        SliceHash::Xxh32 => algorithms::xxh32_of(data, seed) as nat,
        SliceHash::Xxh64 => algorithms::xxh64_of(data, seed as u64) as nat,
        SliceHash::Xxh3_64 => algorithms::xxh3_64_of(data, seed as u64) as nat,
        SliceHash::Xxh3_128 => algorithms::xxh3_128_of(data, seed as u64) as nat,
        SliceHash::ConstXxh32 => algorithms::const_xxh32_of(data, seed) as nat,
        SliceHash::ConstXxh64 => algorithms::const_xxh64_of(data, seed as u64) as nat,
        SliceHash::ConstXxh3_64 => algorithms::const_xxh3_64_of(data, seed as u64) as nat,
        SliceHash::ConstXxh3_128 => algorithms::const_xxh3_128_of(data, seed as u64) as nat,
        SliceHash::Murmur3_32OfSlice => algorithms::murmur3_32_of(data, seed) as nat,
        SliceHash::Murmur3X64_128OfSlice => algorithms::murmur3_x64_128_of(data, seed) as nat,
        SliceHash::Murmur3X86_128OfSlice => algorithms::murmur3_x86_128_of(data, seed) as nat,
    }
}

/// The value of a cursor algorithm on `data` under `seed`, when it succeeds.
pub open spec fn cursor_value(hash: CursorHash, data: Seq<u8>, seed: u32) -> nat {
    match hash {
        CursorHash::Murmur3_32 => algorithms::murmur3_32_of(data, seed) as nat,
        CursorHash::Murmur3X64_128 => algorithms::murmur3_x64_128_of(data, seed) as nat,
        CursorHash::Murmur3X86_128 => algorithms::murmur3_x86_128_of(data, seed) as nat,
    }
}

/// The length in bytes of the digests of an algorithm.
pub open spec fn digest_len(hash: DigestHash) -> nat {
    match hash {
        DigestHash::Md5 => 16,
        DigestHash::Blake2b512 => 64,
        DigestHash::Blake2s256 => 32,
        DigestHash::Sha1 => 20,
        DigestHash::Keccak224 => 28,
        DigestHash::Keccak256 => 32,
        DigestHash::Keccak384 => 48,
        DigestHash::Keccak512 => 64,
        DigestHash::Keccak256Full => 200,
        DigestHash::Sha3_224 => 28,
        DigestHash::Sha3_256 => 32,
        DigestHash::Sha3_384 => 48,
        DigestHash::Sha3_512 => 64,
        DigestHash::Sha224 => 28,
        DigestHash::Sha256 => 32,
        DigestHash::Sha384 => 48,
        DigestHash::Sha512 => 64,
        DigestHash::Sha512_224 => 28,
        DigestHash::Sha512_256 => 32,
        DigestHash::Sm3 => 32,
    }
}

/// The digest of `data` under a digest algorithm.
pub open spec fn digest_value(hash: DigestHash, data: Seq<u8>) -> Seq<u8> {
    match hash {
        DigestHash::Md5 => algorithms::md5_of(data),
        DigestHash::Blake2b512 => algorithms::blake2b_512_of(data),
        DigestHash::Blake2s256 => algorithms::blake2s_256_of(data),
        DigestHash::Sha1 => algorithms::sha1_of(data),
        DigestHash::Keccak224 => algorithms::keccak_224_of(data),
        DigestHash::Keccak256 => algorithms::keccak_256_of(data),
        DigestHash::Keccak384 => algorithms::keccak_384_of(data),
        DigestHash::Keccak512 => algorithms::keccak_512_of(data),
        DigestHash::Keccak256Full => algorithms::keccak_256_full_of(data),
        DigestHash::Sha3_224 => algorithms::sha3_224_of(data),
        DigestHash::Sha3_256 => algorithms::sha3_256_of(data),
        DigestHash::Sha3_384 => algorithms::sha3_384_of(data),
        DigestHash::Sha3_512 => algorithms::sha3_512_of(data),
        DigestHash::Sha224 => algorithms::sha2_224_of(data),
        DigestHash::Sha256 => algorithms::sha2_256_of(data),
        DigestHash::Sha384 => algorithms::sha2_384_of(data),
        DigestHash::Sha512 => algorithms::sha2_512_of(data),
        DigestHash::Sha512_224 => algorithms::sha2_512_224_of(data),
        DigestHash::Sha512_256 => algorithms::sha2_512_256_of(data),
        DigestHash::Sm3 => algorithms::sm3_of(data),
    }
}

/// The text form of a case's result on `data` under `seed`; for a cursor
/// algorithm, the text of a successful call.
pub open spec fn result_text(invocation: Invocation, data: Seq<u8>, seed: u32) -> Seq<char> {
    match invocation {
        Invocation::Slice(h) => hex_text(slice_value(h, data, seed)),
        Invocation::Cursor(h) => hex_text(cursor_value(h, data, seed)),
        Invocation::Digest(h) => bytes_hex(digest_value(h, data)),
        Invocation::Text(_) => bytes_hex(algorithms::sha2_256_of(data)),
    }
}

/// Whether an input of `len` bytes is within what the algorithm of
/// `invocation` can take: murmur3's 32-bit hash counts the bytes it has read
/// in a `u32`.
pub open spec fn input_len_admitted(invocation: Invocation, len: nat) -> bool {
    match invocation {
        Invocation::Slice(SliceHash::Murmur3_32OfSlice) => len < 0x1_0000_0000,
        Invocation::Cursor(CursorHash::Murmur3_32) => len < 0x1_0000_0000,
        _ => true,
    }
}

/// Calls an integer algorithm on the buffer.
pub fn run_slice(data: Vec<u8>, seed: u32, hash: SliceHash) -> (r: u128)
    requires
        input_len_admitted(Invocation::Slice(hash), data@.len()),
    ensures
        r as nat == slice_value(hash, data@, seed),
{
    let d = data.as_slice();
    match hash {
        SliceHash::Crc16Arc => algorithms::crc_16_arc(d) as u128,
        SliceHash::Crc32IsoHdlc => algorithms::crc_32_iso_hdlc(d) as u128,
        SliceHash::Crc64Redis => algorithms::crc_64_redis(d) as u128,
        SliceHash::Crc16State => algorithms::crc16_arc(d) as u128,
        SliceHash::Crc32Fast => algorithms::crc32fast_hash(d) as u128,
        SliceHash::Crc64 => algorithms::crc64_jones(d) as u128,
        SliceHash::TwoxXxHash32 => algorithms::twox_xxh32(d, seed) as u128,
        SliceHash::TwoxXxHash64 => algorithms::twox_xxh64(d, seed as u64) as u128,
        SliceHash::TwoxXxHash3_64 => algorithms::twox_xxh3_64(d, seed as u64) as u128,
        SliceHash::TwoxXxHash3_128 => algorithms::twox_xxh3_128(d, seed as u64) as u128,
        SliceHash::SeaHash => algorithms::seahash_hash(d) as u128,
        SliceHash::Xxh32 => algorithms::xxh32(d, seed) as u128,
        SliceHash::Xxh64 => algorithms::xxh64(d, seed as u64) as u128,
        SliceHash::Xxh3_64 => algorithms::xxh3_64(d, seed as u64) as u128,
        SliceHash::Xxh3_128 => algorithms::xxh3_128(d, seed as u64) as u128,
        SliceHash::ConstXxh32 => algorithms::const_xxh32(d, seed) as u128,
        SliceHash::ConstXxh64 => algorithms::const_xxh64(d, seed as u64) as u128,
        SliceHash::ConstXxh3_64 => algorithms::const_xxh3_64(d, seed as u64) as u128,
        SliceHash::ConstXxh3_128 => algorithms::const_xxh3_128(d, seed as u64) as u128,
        SliceHash::Murmur3_32OfSlice => algorithms::murmur3_32(d, seed).unwrap() as u128,
        SliceHash::Murmur3X64_128OfSlice => algorithms::murmur3_x64_128(d, seed).unwrap() as u128,
        SliceHash::Murmur3X86_128OfSlice => algorithms::murmur3_x86_128(d, seed).unwrap() as u128,
    }
}

/// Calls a cursor algorithm on a cursor over the buffer and hands back what it
/// returned; over an in-memory buffer the read cannot fail.
pub fn run_cursor(data: Vec<u8>, seed: u32, hash: CursorHash) -> (r: Result<u128, std::io::Error>)
    requires
        input_len_admitted(Invocation::Cursor(hash), data@.len()),
    ensures
        r is Ok && r->Ok_0 as nat == cursor_value(hash, data@, seed),
{
    let d = data.as_slice();
    match hash {
        CursorHash::Murmur3_32 => match algorithms::murmur3_32(d, seed) {
            Ok(v) => Ok(v as u128),
            Err(e) => Err(e),
        },
        CursorHash::Murmur3X64_128 => algorithms::murmur3_x64_128(d, seed),
        CursorHash::Murmur3X86_128 => algorithms::murmur3_x86_128(d, seed),
    }
}

/// Feeds the whole buffer to a digest algorithm and hands back the digest in
/// lowercase hexadecimal.
pub fn run_digest(data: Vec<u8>, hash: DigestHash) -> (r: String)
    ensures
        r@ == bytes_hex(digest_value(hash, data@)),
        r@.len() == 2 * digest_len(hash),
{
    let d = data.as_slice();
    let digest = match hash {
        DigestHash::Md5 => algorithms::md5_digest(d),
        DigestHash::Blake2b512 => algorithms::blake2b_512_digest(d),
        DigestHash::Blake2s256 => algorithms::blake2s_256_digest(d),
        DigestHash::Sha1 => algorithms::sha1_digest(d),
        DigestHash::Keccak224 => algorithms::keccak_224_digest(d),
        DigestHash::Keccak256 => algorithms::keccak_256_digest(d),
        DigestHash::Keccak384 => algorithms::keccak_384_digest(d),
        DigestHash::Keccak512 => algorithms::keccak_512_digest(d),
        DigestHash::Keccak256Full => algorithms::keccak_256_full_digest(d),
        DigestHash::Sha3_224 => algorithms::sha3_224_digest(d),
        DigestHash::Sha3_256 => algorithms::sha3_256_digest(d),
        DigestHash::Sha3_384 => algorithms::sha3_384_digest(d),
        DigestHash::Sha3_512 => algorithms::sha3_512_digest(d),
        DigestHash::Sha224 => algorithms::sha2_224_digest(d),
        DigestHash::Sha256 => algorithms::sha2_256_digest(d),
        DigestHash::Sha384 => algorithms::sha2_384_digest(d),
        DigestHash::Sha512 => algorithms::sha2_512_digest(d),
        DigestHash::Sha512_224 => algorithms::sha2_512_224_digest(d),
        DigestHash::Sha512_256 => algorithms::sha2_512_256_digest(d),
        DigestHash::Sm3 => algorithms::sm3_digest(d),
    };
    proof {
        lemma_bytes_hex_len(digest@);
    }
    algorithms::hex_encode(digest.as_slice())
}

/// Calls an algorithm whose result is already text.
pub fn run_text(data: Vec<u8>, hash: TextHash) -> (r: String)
    ensures
        r@ == bytes_hex(algorithms::sha2_256_of(data@)),
        r@.len() == 64,
{
    match hash {
        TextHash::Sha256 => algorithms::sha256_hex(data.as_slice()),
    }
}

/// Calls the algorithm of `invocation` on the buffer, in the shape it takes.
pub fn invoke(invocation: Invocation, data: Vec<u8>, seed: u32) -> (r: RawResult)
    requires
        input_len_admitted(invocation, data@.len()),
    ensures
        match invocation {
            Invocation::Slice(h) => r == RawResult::Number(r->Number_0) && r->Number_0 as nat
                == slice_value(h, data@, seed),
            Invocation::Cursor(h) => r is Fallible && r->Fallible_0 is Ok && r->Fallible_0->Ok_0 as nat
                == cursor_value(h, data@, seed),
            Invocation::Digest(h) => r is Text && r->Text_0@ == bytes_hex(digest_value(h, data@))
                && r->Text_0@.len() == 2 * digest_len(h),
            Invocation::Text(_) => r is Text && r->Text_0@ == bytes_hex(algorithms::sha2_256_of(data@))
                && r->Text_0@.len() == 64,
        },
{
    match invocation {
        Invocation::Slice(h) => RawResult::Number(run_slice(data, seed, h)),
        Invocation::Cursor(h) => RawResult::Fallible(run_cursor(data, seed, h)),
        Invocation::Digest(h) => RawResult::Text(run_digest(data, h)),
        Invocation::Text(h) => RawResult::Text(run_text(data, h)),
    }
}

/// Puts a raw result in text form.
pub fn normalize(raw: RawResult) -> (r: String)
    ensures
        match raw {
            RawResult::Number(v) => r@ == hex_text(v as nat),
            RawResult::Fallible(res) => (res is Ok ==> r@ == hex_text(res->Ok_0 as nat)) && (res is Err
                ==> r@.len() > 0),
            RawResult::Text(s) => r == s,
        },
{
    match raw {
        RawResult::Number(v) => get_res_hash(v),
        RawResult::Fallible(res) => get_res_result(res),
        RawResult::Text(s) => get_res_string(s),
    }
}

/// One benchmark case: an algorithm by name, the input size and seed, and how
/// the algorithm is called.
pub struct HashTest {
    pub name: String,
    pub size: usize,
    pub seed: u32,
    pub invocation: Invocation,
}

/// The length of the result text of a case: two characters per byte of a
/// digest; any non-zero length for an integer result.
pub open spec fn result_text_len_ok(invocation: Invocation, len: nat) -> bool {
    match invocation {
        Invocation::Digest(h) => len == 2 * digest_len(h),
        Invocation::Text(_) => len == 64,
        _ => len > 0,
    }
}

/// What running a case gives: its name, size and seed, and the text of the
/// algorithm's result on the case's input, which is never empty.
pub open spec fn stat_of_case(s: Stat, name: Seq<char>, size: usize, seed: u32, invocation: Invocation) -> bool {
    &&& s.name@ == name
    &&& s.size == size
    &&& s.seed == seed
    &&& s.res_string@ == result_text(invocation, input_bytes(size as nat, seed), seed)
    &&& result_text_len_ok(invocation, s.res_string@.len())
}

impl HashTest {
    /// A case from its parts.
    pub fn new(name: &str, size: usize, seed: u32, invocation: Invocation) -> (r: HashTest)
        ensures
            r.name@ == name@,
            r.size == size,
            r.seed == seed,
            r.invocation == invocation,
    {
        HashTest { name: name.to_owned(), size, seed, invocation }
    }

    /// A case for an algorithm read through a cursor.
    pub fn new_cursor(name: &str, size: usize, seed: u32, hash: CursorHash) -> (r: HashTest)
        ensures
            r.name@ == name@,
            r.size == size,
            r.seed == seed,
            r.invocation == Invocation::Cursor(hash),
    {
        Self::new(name, size, seed, Invocation::Cursor(hash))
    }

    /// A case for an integer algorithm called on the whole buffer.
    pub fn new_vec(name: &str, size: usize, seed: u32, hash: SliceHash) -> (r: HashTest)
        ensures
            r.name@ == name@,
            r.size == size,
            r.seed == seed,
            r.invocation == Invocation::Slice(hash),
    {
        Self::new(name, size, seed, Invocation::Slice(hash))
    }

    /// A case for an algorithm whose result is already text.
    pub fn new_vec_str(name: &str, size: usize, seed: u32, hash: TextHash) -> (r: HashTest)
        ensures
            r.name@ == name@,
            r.size == size,
            r.seed == seed,
            r.invocation == Invocation::Text(hash),
    {
        Self::new(name, size, seed, Invocation::Text(hash))
    }

    /// A case for a digest algorithm, whose digest is shown in hexadecimal.
    pub fn new_wrapper(name: &str, size: usize, seed: u32, hash: DigestHash) -> (r: HashTest)
        ensures
            r.name@ == name@,
            r.size == size,
            r.seed == seed,
            r.invocation == Invocation::Digest(hash),
    {
        Self::new(name, size, seed, Invocation::Digest(hash))
    }

    /// Runs the case once: generates its input, times exactly one call of the
    /// algorithm, and puts the result in text form.
    pub fn run(self) -> (r: Stat)
        requires
            input_len_admitted(self.invocation, self.size as nat),
        ensures
            stat_of_case(r, self.name@, self.size, self.seed, self.invocation),
    {
        let buffer = init_vec(self.size, self.seed);
        let ghost bytes = buffer@;
        proof {
            lemma_empty_request_fixed(self.seed, self.seed);
        }
        let start = std::time::Instant::now();
        let raw = invoke(self.invocation, buffer, self.seed);
        let elapsed = start.elapsed();
        let res_string = normalize(raw);
        proof {
            if let Invocation::Slice(h) = self.invocation {
                lemma_hex_text_digits(slice_value(h, bytes, self.seed));
            }
            if let Invocation::Cursor(h) = self.invocation {
                lemma_hex_text_digits(cursor_value(h, bytes, self.seed));
            }
        }
        Stat {
            name: self.name,
            size: self.size,
            seed: self.seed,
            duration_nanos: elapsed.as_nanos(),
            res_string,
        }
    }
}

/// The number of algorithms in the catalog. Its last three entries keep the
/// names of murmur3's `*_of_slice` hashes; murmur3 0.5.2 offers those hashes
/// only over a reader, so these entries call the reader form on the whole
/// buffer and hand back the integer, as the slice form would.
pub const CATALOG_LEN: usize = 46;

/// The name of catalog entry `i`, in catalog order (see `CATALOG_LEN` on the
/// last three).
pub open spec fn catalog_name(i: int) -> Seq<char> {
    if i == 0 {
        "md5_compute"@
    } else if i == 1 {
        "Blake2b512"@
    } else if i == 2 {
        "Blake2s256"@
    } else if i == 3 {
        "Sha1"@
    } else if i == 4 {
        "Keccak224"@
    } else if i == 5 {
        "Keccak256"@
    } else if i == 6 {
        "Keccak384"@
    } else if i == 7 {
        "Keccak512"@
    } else if i == 8 {
        "Keccak256Full"@
    } else if i == 9 {
        "Sha3_224"@
    } else if i == 10 {
        "Sha3_256"@
    } else if i == 11 {
        "Sha3_384"@
    } else if i == 12 {
        "Sha3_512"@
    } else if i == 13 {
        "Sha224"@
    } else if i == 14 {
        "Sha256"@
    } else if i == 15 {
        "Sha384"@
    } else if i == 16 {
        "Sha512"@
    } else if i == 17 {
        "Sha512_224"@
    } else if i == 18 {
        "Sha512_256"@
    } else if i == 19 {
        "sm3"@
    } else if i == 20 {
        "crc<u16>"@
    } else if i == 21 {
        "crc<u32>"@
    } else if i == 22 {
        "crc<u64>"@
    } else if i == 23 {
        "crc16"@
    } else if i == 24 {
        "crc32fast"@
    } else if i == 25 {
        "crc64"@
    } else if i == 26 {
        "sha256"@
    } else if i == 27 {
        "twox_hash::XxHash32"@
    } else if i == 28 {
        "twox_hash::XxHash64"@
    } else if i == 29 {
        "twox_hash::XxHash3_64"@
    } else if i == 30 {
        "twox_hash::XxHash3_128"@
    } else if i == 31 {
        "seahash"@
    } else if i == 32 {
        "xxhash::xxh32"@
    } else if i == 33 {
        "xxhash::xxh64"@
    } else if i == 34 {
        "xxhash::xxh3_64_with_seed"@
    } else if i == 35 {
        "xxhash::xxh3_128_with_seed"@
    } else if i == 36 {
        "xxhash::const_xxh32"@
    } else if i == 37 {
        "xxhash::const_xxh64"@
    } else if i == 38 {
        "xxhash::const_xxh3_64_with_seed"@
    } else if i == 39 {
        "xxhash::const_xxh3_128_with_seed"@
    } else if i == 40 {
        "murmur3_32"@
    } else if i == 41 {
        "murmur3_x64_128"@
    } else if i == 42 {
        "murmur3_x86_128"@
    } else if i == 43 {
        "murmur3_32_of_slice"@
    } else if i == 44 {
        "murmur3_x64_128_of_slice"@
    } else {
        "murmur3_x86_128_of_slice"@
    }
}

/// How catalog entry `i` calls its algorithm.
pub open spec fn catalog_invocation(i: int) -> Invocation {
    if i == 0 {
        Invocation::Digest(DigestHash::Md5)
    } else if i == 1 {
        Invocation::Digest(DigestHash::Blake2b512)
    } else if i == 2 {
        Invocation::Digest(DigestHash::Blake2s256)
    } else if i == 3 {
        Invocation::Digest(DigestHash::Sha1)
    } else if i == 4 {
        Invocation::Digest(DigestHash::Keccak224)
    } else if i == 5 {
        Invocation::Digest(DigestHash::Keccak256)
    } else if i == 6 {
        Invocation::Digest(DigestHash::Keccak384)
    } else if i == 7 {
        Invocation::Digest(DigestHash::Keccak512)
    } else if i == 8 {
        Invocation::Digest(DigestHash::Keccak256Full)
    } else if i == 9 {
        Invocation::Digest(DigestHash::Sha3_224)
    } else if i == 10 {
        Invocation::Digest(DigestHash::Sha3_256)
    } else if i == 11 {
        Invocation::Digest(DigestHash::Sha3_384)
    } else if i == 12 {
        Invocation::Digest(DigestHash::Sha3_512)
    } else if i == 13 {
        Invocation::Digest(DigestHash::Sha224)
    } else if i == 14 {
        Invocation::Digest(DigestHash::Sha256)
    } else if i == 15 {
        Invocation::Digest(DigestHash::Sha384)
    } else if i == 16 {
        Invocation::Digest(DigestHash::Sha512)
    } else if i == 17 {
        Invocation::Digest(DigestHash::Sha512_224)
    } else if i == 18 {
        Invocation::Digest(DigestHash::Sha512_256)
    } else if i == 19 {
        Invocation::Digest(DigestHash::Sm3)
    } else if i == 20 {
        Invocation::Slice(SliceHash::Crc16Arc)
    } else if i == 21 {
        Invocation::Slice(SliceHash::Crc32IsoHdlc)
    } else if i == 22 {
        Invocation::Slice(SliceHash::Crc64Redis)
    } else if i == 23 {
        Invocation::Slice(SliceHash::Crc16State)
    } else if i == 24 {
        Invocation::Slice(SliceHash::Crc32Fast)
    } else if i == 25 {
        Invocation::Slice(SliceHash::Crc64)
    } else if i == 26 {
        Invocation::Text(TextHash::Sha256)
    } else if i == 27 {
        Invocation::Slice(SliceHash::TwoxXxHash32)
    } else if i == 28 {
        Invocation::Slice(SliceHash::TwoxXxHash64)
    } else if i == 29 {
        Invocation::Slice(SliceHash::TwoxXxHash3_64)
    } else if i == 30 {
        Invocation::Slice(SliceHash::TwoxXxHash3_128)
    } else if i == 31 {
        Invocation::Slice(SliceHash::SeaHash)
    } else if i == 32 {
        Invocation::Slice(SliceHash::Xxh32)
    } else if i == 33 {
        Invocation::Slice(SliceHash::Xxh64)
    } else if i == 34 {
        Invocation::Slice(SliceHash::Xxh3_64)
    } else if i == 35 {
        Invocation::Slice(SliceHash::Xxh3_128)
    } else if i == 36 {
        Invocation::Slice(SliceHash::ConstXxh32)
    } else if i == 37 {
        Invocation::Slice(SliceHash::ConstXxh64)
    } else if i == 38 {
        Invocation::Slice(SliceHash::ConstXxh3_64)
    } else if i == 39 {
        Invocation::Slice(SliceHash::ConstXxh3_128)
    } else if i == 40 {
        Invocation::Cursor(CursorHash::Murmur3_32)
    } else if i == 41 {
        Invocation::Cursor(CursorHash::Murmur3X64_128)
    } else if i == 42 {
        Invocation::Cursor(CursorHash::Murmur3X86_128)
    } else if i == 43 {
        Invocation::Slice(SliceHash::Murmur3_32OfSlice)
    } else if i == 44 {
        Invocation::Slice(SliceHash::Murmur3X64_128OfSlice)
    } else {
        Invocation::Slice(SliceHash::Murmur3X86_128OfSlice)
    }
}

/// Catalog entry `index` as a case of the given size and seed.
pub fn catalog_entry(index: usize, size: usize, seed: u32) -> (r: HashTest)
    requires
        index < CATALOG_LEN,
    ensures
        r.name@ == catalog_name(index as int),
        r.size == size,
        r.seed == seed,
        r.invocation == catalog_invocation(index as int),
{
    if index == 0 {
        HashTest::new_wrapper("md5_compute", size, seed, DigestHash::Md5)
    } else if index == 1 {
        HashTest::new_wrapper("Blake2b512", size, seed, DigestHash::Blake2b512)
    } else if index == 2 {
        HashTest::new_wrapper("Blake2s256", size, seed, DigestHash::Blake2s256)
    } else if index == 3 {
        HashTest::new_wrapper("Sha1", size, seed, DigestHash::Sha1)
    } else if index == 4 {
        HashTest::new_wrapper("Keccak224", size, seed, DigestHash::Keccak224)
    } else if index == 5 {
        HashTest::new_wrapper("Keccak256", size, seed, DigestHash::Keccak256)
    } else if index == 6 {
        HashTest::new_wrapper("Keccak384", size, seed, DigestHash::Keccak384)
    } else if index == 7 {
        HashTest::new_wrapper("Keccak512", size, seed, DigestHash::Keccak512)
    } else if index == 8 {
        HashTest::new_wrapper("Keccak256Full", size, seed, DigestHash::Keccak256Full)
    } else if index == 9 {
        HashTest::new_wrapper("Sha3_224", size, seed, DigestHash::Sha3_224)
    } else if index == 10 {
        HashTest::new_wrapper("Sha3_256", size, seed, DigestHash::Sha3_256)
    } else if index == 11 {
        HashTest::new_wrapper("Sha3_384", size, seed, DigestHash::Sha3_384)
    } else if index == 12 {
        HashTest::new_wrapper("Sha3_512", size, seed, DigestHash::Sha3_512)
    } else if index == 13 {
        HashTest::new_wrapper("Sha224", size, seed, DigestHash::Sha224)
    } else if index == 14 {
        HashTest::new_wrapper("Sha256", size, seed, DigestHash::Sha256)
    } else if index == 15 {
        HashTest::new_wrapper("Sha384", size, seed, DigestHash::Sha384)
    } else if index == 16 {
        HashTest::new_wrapper("Sha512", size, seed, DigestHash::Sha512)
    } else if index == 17 {
        HashTest::new_wrapper("Sha512_224", size, seed, DigestHash::Sha512_224)
    } else if index == 18 {
        HashTest::new_wrapper("Sha512_256", size, seed, DigestHash::Sha512_256)
    } else if index == 19 {
        HashTest::new_wrapper("sm3", size, seed, DigestHash::Sm3)
    } else if index == 20 {
        HashTest::new_vec("crc<u16>", size, seed, SliceHash::Crc16Arc)
    } else if index == 21 {
        HashTest::new_vec("crc<u32>", size, seed, SliceHash::Crc32IsoHdlc)
    } else if index == 22 {
        HashTest::new_vec("crc<u64>", size, seed, SliceHash::Crc64Redis)
    } else if index == 23 {
        HashTest::new_vec("crc16", size, seed, SliceHash::Crc16State)
    } else if index == 24 {
        HashTest::new_vec("crc32fast", size, seed, SliceHash::Crc32Fast)
    } else if index == 25 {
        HashTest::new_vec("crc64", size, seed, SliceHash::Crc64)
    } else if index == 26 {
        HashTest::new_vec_str("sha256", size, seed, TextHash::Sha256)
    } else if index == 27 {
        HashTest::new_vec("twox_hash::XxHash32", size, seed, SliceHash::TwoxXxHash32)
    } else if index == 28 {
        HashTest::new_vec("twox_hash::XxHash64", size, seed, SliceHash::TwoxXxHash64)
    } else if index == 29 {
        HashTest::new_vec("twox_hash::XxHash3_64", size, seed, SliceHash::TwoxXxHash3_64)
    } else if index == 30 {
        HashTest::new_vec("twox_hash::XxHash3_128", size, seed, SliceHash::TwoxXxHash3_128)
    } else if index == 31 {
        HashTest::new_vec("seahash", size, seed, SliceHash::SeaHash)
    } else if index == 32 {
        HashTest::new_vec("xxhash::xxh32", size, seed, SliceHash::Xxh32)
    } else if index == 33 {
        HashTest::new_vec("xxhash::xxh64", size, seed, SliceHash::Xxh64)
    } else if index == 34 {
        HashTest::new_vec("xxhash::xxh3_64_with_seed", size, seed, SliceHash::Xxh3_64)
    } else if index == 35 {
        HashTest::new_vec("xxhash::xxh3_128_with_seed", size, seed, SliceHash::Xxh3_128)
    } else if index == 36 {
        HashTest::new_vec("xxhash::const_xxh32", size, seed, SliceHash::ConstXxh32)
    } else if index == 37 {
        HashTest::new_vec("xxhash::const_xxh64", size, seed, SliceHash::ConstXxh64)
    } else if index == 38 {
        HashTest::new_vec("xxhash::const_xxh3_64_with_seed", size, seed, SliceHash::ConstXxh3_64)
    } else if index == 39 {
        HashTest::new_vec("xxhash::const_xxh3_128_with_seed", size, seed, SliceHash::ConstXxh3_128)
    } else if index == 40 {
        HashTest::new_cursor("murmur3_32", size, seed, CursorHash::Murmur3_32)
    } else if index == 41 {
        HashTest::new_cursor("murmur3_x64_128", size, seed, CursorHash::Murmur3X64_128)
    } else if index == 42 {
        HashTest::new_cursor("murmur3_x86_128", size, seed, CursorHash::Murmur3X86_128)
    } else if index == 43 {
        HashTest::new_vec("murmur3_32_of_slice", size, seed, SliceHash::Murmur3_32OfSlice)
    } else if index == 44 {
        HashTest::new_vec("murmur3_x64_128_of_slice", size, seed, SliceHash::Murmur3X64_128OfSlice)
    } else {
        HashTest::new_vec("murmur3_x86_128_of_slice", size, seed, SliceHash::Murmur3X86_128OfSlice)
    }
}

/// Runs every algorithm of the catalog once at `size` and `seed`, in catalog
/// order: one measurement per entry.
pub fn btest(size: usize, seed: u32) -> (r: Vec<Stat>)
    requires
        size < 0x1_0000_0000,
    ensures
        r.len() == CATALOG_LEN,
        forall|i: int|
            0 <= i < CATALOG_LEN ==> stat_of_case(
                #[trigger] r[i],
                catalog_name(i),
                size,
                seed,
                catalog_invocation(i),
            ),
{
    let mut stats: Vec<Stat> = Vec::new();
    let mut index: usize = 0;
    while index < CATALOG_LEN
        invariant
            size < 0x1_0000_0000,
            index <= CATALOG_LEN,
            stats.len() == index,
            forall|i: int|
                0 <= i < index ==> stat_of_case(
                    #[trigger] stats[i],
                    catalog_name(i),
                    size,
                    seed,
                    catalog_invocation(i),
                ),
        decreases CATALOG_LEN - index,
    {
        let case = catalog_entry(index, size, seed);
        stats.push(case.run());
        index = index + 1;
    }
    stats
}

} // verus!
