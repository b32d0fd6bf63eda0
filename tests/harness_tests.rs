use hashbench::harness::{
    btest, catalog_entry, run_cursor, run_digest, run_slice, run_text, CursorHash, DigestHash,
    HashTest, Invocation, SliceHash, TextHash, CATALOG_LEN,
};
use hashbench::input::{init_test_vec, init_vec};
use hashbench::normalize::{get_res_hash, get_res_result, get_res_string};
use hashbench::stat::Stat;

const TEST_TEXT: &[u8] = b"1234567890abcdefghijklmnopqrstuvwxyzABCDEFGHIJKLMNOPQRSTUVWXYZ";

fn stat(size: usize, duration_nanos: u128) -> Stat {
    Stat {
        name: "case".to_string(),
        size,
        seed: 0,
        duration_nanos,
        res_string: "0".to_string(),
    }
}

#[test]
fn empty_request_gives_test_text() {
    assert_eq!(init_vec(0, 0x12345678), TEST_TEXT.to_vec());
    assert_eq!(init_test_vec(5, 9), TEST_TEXT.to_vec());
    assert_eq!(TEST_TEXT.len(), 62);
}

#[test]
fn empty_request_ignores_seed() {
    assert_eq!(init_vec(0, 1), init_vec(0, 0xffff_ffff));
}

#[test]
fn same_size_and_seed_give_same_bytes() {
    let a = init_vec(1000, 42);
    let b = init_vec(1000, 42);
    assert_eq!(a.len(), 1000);
    assert_eq!(a, b);
    assert_ne!(init_vec(1000, 42), init_vec(1000, 43));
}

#[test]
fn integer_results_in_lowercase_hex() {
    assert_eq!(get_res_hash(0), "0");
    assert_eq!(get_res_hash(255), "ff");
    assert_eq!(get_res_hash(0xdead_beef), "deadbeef");
    assert_eq!(get_res_hash(u128::MAX), "f".repeat(32));
    assert_eq!(get_res_hash(0x0abc), get_res_hash(0x0abc));
    let text = get_res_hash(0x1234_5678_9abc_def0);
    assert!(!text.starts_with("0x"));
    assert!(text.chars().all(|c| c.is_ascii_digit() || ('a'..='f').contains(&c)));
}

#[test]
fn fallible_results() {
    assert_eq!(get_res_result(Ok(0x1f)), "1f");
    let err = std::io::Error::new(std::io::ErrorKind::UnexpectedEof, "short input");
    let text = get_res_result(Err(err));
    assert!(text.contains("UnexpectedEof"));
    assert!(text.contains("short input"));
}

#[test]
fn text_results_pass_through() {
    assert_eq!(get_res_string("abc".to_string()), "abc");
}

#[test]
fn speed_scales_units() {
    assert_eq!(stat(1, 1_000_000_000).speed(), "1.00B/s");
    assert_eq!(stat(1024, 1_000_000_000).speed(), "1024.00B/s");
    assert_eq!(stat(2048, 1_000_000_000).speed(), "2.00KB/s");
    assert_eq!(stat(3, 1_000_000_000).speed(), "3.00B/s");
    assert_eq!(stat(1, 3_000_000_000).speed(), "0.33B/s");
    assert_eq!(stat(2, 3_000_000_000).speed(), "0.67B/s");
    assert_eq!(stat(3 * 1024 * 1024, 1_000_000_000).speed(), "3.00MB/s");
    assert_eq!(stat(1536, 1_000_000).speed(), "1.46MB/s");
    assert_eq!(stat(0, 5).speed(), "0.00B/s");
    assert_eq!(stat(usize::MAX, 1).speed(), "15258.79BB/s");
}

#[test]
fn zero_duration_speed() {
    assert_eq!(stat(10, 0).speed(), "infBB/s");
    assert_eq!(stat(0, 0).speed(), "0.00B/s");
}

#[test]
fn speed_reads_back_as_rate() {
    // 5000 bytes in 0.3 s is 16666.67 B/s, 16.276 KB/s.
    let text = stat(5000, 300_000_000).speed();
    assert_eq!(text, "16.28KB/s");
    let value: f64 = text.trim_end_matches("KB/s").parse().unwrap();
    let rate = 5000.0 / 0.3;
    assert!((value * 1024.0 - rate).abs() <= 0.005 * 1024.0);
}

#[test]
fn slice_algorithms_compute_known_values() {
    let data = b"123456789".to_vec();
    assert_eq!(run_slice(data.clone(), 0, SliceHash::Crc32Fast), 0xcbf4_3926);
    assert_eq!(run_slice(data.clone(), 0, SliceHash::Crc32IsoHdlc), 0xcbf4_3926);
    assert_eq!(run_slice(data.clone(), 0, SliceHash::Crc16Arc), 0xbb3d);
    assert_eq!(run_slice(data.clone(), 0, SliceHash::Crc16State), 0xbb3d);
    assert_eq!(run_slice(data.clone(), 0, SliceHash::Crc64Redis), 0xe9c6_d914_c4b8_d9ca);
    assert_eq!(run_slice(data.clone(), 7, SliceHash::Xxh64), xxhash_rust::xxh64::xxh64(&data, 7) as u128);
    assert_eq!(run_slice(data.clone(), 7, SliceHash::ConstXxh3_128), xxhash_rust::xxh3::xxh3_128_with_seed(&data, 7));
    assert_eq!(run_slice(data.clone(), 7, SliceHash::TwoxXxHash32), xxhash_rust::xxh32::xxh32(&data, 7) as u128);
    assert_eq!(run_slice(data.clone(), 0, SliceHash::SeaHash), seahash::hash(&data) as u128);
}

#[test]
fn digest_algorithms_in_hex() {
    let abc = b"abc".to_vec();
    assert_eq!(run_digest(abc.clone(), DigestHash::Md5), "900150983cd24fb0d6963f7d28e17f72");
    assert_eq!(
        run_digest(abc.clone(), DigestHash::Sha256),
        "ba7816bf8f01cfea414140de5dae2223b00361a396177a9cb410ff61f20015ad"
    );
    assert_eq!(run_digest(abc.clone(), DigestHash::Sha1), "a9993e364706816aba3e25717850c26c9cd0d89d");
    assert_eq!(run_digest(abc.clone(), DigestHash::Keccak256Full).len(), 400);
    assert_eq!(
        run_text(abc, TextHash::Sha256),
        "ba7816bf8f01cfea414140de5dae2223b00361a396177a9cb410ff61f20015ad"
    );
}

#[test]
fn cursor_algorithms_match_slice_reading() {
    let data = b"hello world".to_vec();
    let expected = murmur3::murmur3_32(&mut std::io::Cursor::new(data.clone()), 3).unwrap();
    assert_eq!(run_cursor(data.clone(), 3, CursorHash::Murmur3_32).unwrap(), expected as u128);
    let wide = murmur3::murmur3_x64_128(&mut std::io::Cursor::new(data.clone()), 3).unwrap();
    assert_eq!(run_cursor(data, 3, CursorHash::Murmur3X64_128).unwrap(), wide);
    let empty = run_cursor(Vec::new(), 0, CursorHash::Murmur3X86_128);
    assert!(empty.is_ok());
}

#[test]
fn run_times_one_case() {
    let stat = HashTest::new_vec("crc32fast", 0, 5, SliceHash::Crc32Fast).run();
    assert_eq!(stat.name, "crc32fast");
    assert_eq!(stat.size, 0);
    assert_eq!(stat.seed, 5);
    assert_eq!(stat.res_string, format!("{:x}", crc32fast::hash(TEST_TEXT)));

    let stat = HashTest::new("md5_compute", 64, 1, Invocation::Digest(DigestHash::Md5)).run();
    assert_eq!(stat.size, 64);
    assert_eq!(stat.res_string, hex::encode(md5::compute(init_vec(64, 1)).0));

    let stat = HashTest::new_vec_str("sha256", 3, 2, TextHash::Sha256).run();
    assert_eq!(stat.res_string, sha256::digest(&init_vec(3, 2)[..]));

    let stat = HashTest::new_cursor("murmur3_32", 9, 4, CursorHash::Murmur3_32).run();
    let expected = murmur3::murmur3_32(&mut std::io::Cursor::new(init_vec(9, 4)), 4).unwrap();
    assert_eq!(stat.res_string, format!("{:x}", expected));

    let stat = HashTest::new_wrapper("Sha1", 1, 0, DigestHash::Sha1).run();
    assert_eq!(stat.res_string.len(), 40);
}

#[test]
fn suite_at_size_zero_covers_catalog() {
    let stats = btest(0, 0);
    assert_eq!(stats.len(), CATALOG_LEN);
    for s in &stats {
        assert_eq!(s.size, 0);
        assert!(!s.res_string.is_empty());
    }
    assert_eq!(stats[0].name, "md5_compute");
    assert_eq!(CATALOG_LEN, 46);
    assert_eq!(stats[19].name, "sm3");
    assert_eq!(stats[42].name, "murmur3_x86_128");
    assert_eq!(stats[45].name, "murmur3_x86_128_of_slice");
}

#[test]
fn suite_keeps_size_and_seed() {
    let stats = btest(256, 11);
    assert_eq!(stats.len(), CATALOG_LEN);
    for (i, s) in stats.iter().enumerate() {
        let case = catalog_entry(i, 256, 11);
        assert_eq!(s.name, case.name);
        assert_eq!(s.size, 256);
        assert_eq!(s.seed, 11);
    }
}

#[test]
fn suite_digest_texts_have_digest_length() {
    let stats = btest(100, 3);
    let len_of = |name: &str| stats.iter().find(|s| s.name == name).unwrap().res_string.len();
    assert_eq!(len_of("md5_compute"), 32);
    assert_eq!(len_of("Sha1"), 40);
    assert_eq!(len_of("Sha224"), 56);
    assert_eq!(len_of("Sha256"), 64);
    assert_eq!(len_of("sm3"), 64);
    assert_eq!(len_of("Sha512"), 128);
    assert_eq!(len_of("Blake2b512"), 128);
    assert_eq!(len_of("Keccak256Full"), 400);
    assert_eq!(len_of("sha256"), 64);
    for s in &stats {
        assert!(s.res_string.chars().all(|c| c.is_ascii_digit() || ('a'..='f').contains(&c)));
    }
}

#[test]
fn suite_runs_agree_but_for_duration() {
    let first = btest(77, 9);
    let second = btest(77, 9);
    assert_eq!(first.len(), second.len());
    for (a, b) in first.iter().zip(second.iter()) {
        assert_eq!(a.name, b.name);
        assert_eq!(a.size, b.size);
        assert_eq!(a.res_string, b.res_string);
    }
}

#[test]
fn cursor_case_text_is_hash_of_input() {
    let stat = HashTest::new_cursor("murmur3_x86_128", 0, 1, CursorHash::Murmur3X86_128).run();
    let expected =
        murmur3::murmur3_x86_128(&mut std::io::Cursor::new(TEST_TEXT.to_vec()), 1).unwrap();
    assert_eq!(stat.res_string, format!("{:x}", expected));
}

#[test]
fn error_text_is_not_empty() {
    let err = std::io::Error::from(std::io::ErrorKind::Other);
    assert!(!get_res_result(Err(err)).is_empty());
}

#[test]
fn slice_murmur3_entries_hash_whole_buffer() {
    let data = b"hello world".to_vec();
    let expected = murmur3::murmur3_32(&mut std::io::Cursor::new(data.clone()), 3).unwrap();
    assert_eq!(run_slice(data.clone(), 3, SliceHash::Murmur3_32OfSlice), expected as u128);
    let wide = murmur3::murmur3_x64_128(&mut std::io::Cursor::new(data.clone()), 3).unwrap();
    assert_eq!(run_slice(data.clone(), 3, SliceHash::Murmur3X64_128OfSlice), wide);
    let narrow = murmur3::murmur3_x86_128(&mut std::io::Cursor::new(data.clone()), 3).unwrap();
    assert_eq!(run_slice(data, 3, SliceHash::Murmur3X86_128OfSlice), narrow);
}
