use sevenz_rust::{Password, SevenZReader};
use std::io::Cursor;
use wasm_bridge::archive::{compress_with_lzma2, zip, ArchiveError, FirstEntry, ReadOutcome};
use wasm_bridge::engine::{execute, result_bytes, version, version_v21, EngineError, RunOutcome};
use wasm_bridge::fixtures::{validate_wasm, WasmFormatError};
use wasm_bridge::guest::App;
use wasm_bridge::hashing::{hash, hash_with_params, leading_i64, run, HashError};
use wasm_bridge::markdown::parse;

fn read(compressed_data: &[u8]) -> ReadOutcome {
    let cursor = Cursor::new(compressed_data);
    let mut archive =
        match SevenZReader::new(cursor, compressed_data.len() as u64, Password::empty()) {
            Ok(archive) => archive,
            Err(_) => return ReadOutcome::NotOpened,
        };
    let mut kept = FirstEntry::new();
    let walked = archive.for_each_entries(|_entry, reader| {
        if kept.wants_content() {
            let mut data = Vec::new();
            reader.read_to_end(&mut data)?;
            kept.take(data);
        }
        Ok::<_, sevenz_rust::Error>(kept.goes_on())
    });
    match walked {
        Ok(()) => ReadOutcome::Walked { kept },
        Err(_) => ReadOutcome::NotRead,
    }
}

fn unzip(compressed_data: &[u8]) -> Result<Vec<u8>, ArchiveError> {
    wasm_bridge::archive::unzip(read(compressed_data))
}

struct Case {
    name: &'static str,
    input: Vec<u8>,
    compression_level: u8,
}

fn test_vector() -> Vec<Case> {
    vec![
        Case { name: "empty_data", input: vec![], compression_level: 6 },
        Case { name: "small_data", input: vec![1, 2, 3, 4, 5], compression_level: 6 },
        Case { name: "repetitive_data", input: vec![42; 1000], compression_level: 9 },
        Case {
            name: "random_data",
            input: (0..100).map(|i| (i % 256) as u8).collect(),
            compression_level: 3,
        },
        Case { name: "minimum_compression", input: vec![1, 2, 3, 4, 5], compression_level: 1 },
        Case { name: "maximum_compression", input: vec![0; 1000], compression_level: 9 },
    ]
}

#[test]
fn compress_with_all_levels() {
    for case in test_vector() {
        let result = compress_with_lzma2(&case.input, case.compression_level);
        assert!(result.is_ok(), "Test case '{}' failed: {:?}", case.name, result.err());

        let compressed = result.unwrap();
        assert!(!compressed.is_empty(), "Test case '{}' produced empty output", case.name);
    }
}

#[test]
fn compress_default_level() {
    let data = vec![1, 2, 3, 4, 5];
    let result = zip(&data);
    assert!(result.is_ok());
    assert!(!result.unwrap().is_empty());
}

#[test]
fn invalid_level_rejected() {
    let data = vec![1, 2, 3];
    let result = compress_with_lzma2(&data, 10);
    assert!(result.is_err());
}

#[test]
fn compression_reduces_size() {
    let data = vec![42; 10000];
    let compressed = compress_with_lzma2(&data, 9).unwrap();

    assert!(
        compressed.len() < data.len(),
        "Compressed size {} should be less than original size {}",
        compressed.len(),
        data.len()
    );
}

#[test]
fn empty_input_handling() {
    let result = zip(&[]);
    assert!(result.is_ok());
    let compressed = result.unwrap();
    assert!(!compressed.is_empty());
}

struct DecompressCase {
    name: &'static str,
    input: Vec<u8>,
}

fn decompress_test_vector() -> Vec<DecompressCase> {
    vec![
        DecompressCase { name: "empty_data", input: vec![] },
        DecompressCase { name: "small_data", input: vec![1, 2, 3, 4, 5] },
        DecompressCase { name: "repetitive_data", input: vec![42; 1000] },
        DecompressCase {
            name: "random_data",
            input: (0..100).map(|i| (i % 256) as u8).collect(),
        },
        DecompressCase {
            name: "binary_data",
            input: vec![0xFF, 0xFE, 0xFD, 0xFC, 0xFB, 0xFA, 0x00, 0x01, 0x7F, 0x80, 0x9A, 0xBC],
        },
    ]
}

#[test]
fn decompress_roundtrip() {
    for case in decompress_test_vector() {
        let compressed = zip(&case.input).unwrap();
        let decompressed = unzip(&compressed).unwrap();

        assert_eq!(
            decompressed, case.input,
            "Test case '{}' failed: decompressed data does not match original",
            case.name
        );
    }
}

#[test]
fn decompress_invalid_archive() {
    let invalid_data = vec![0, 1, 2, 3, 4, 5];
    let result = unzip(&invalid_data);
    assert!(result.is_err(), "Should fail on invalid 7z archive");
}

#[test]
fn decompress_with_compression_levels() {
    for case in test_vector() {
        let compressed = compress_with_lzma2(&case.input, case.compression_level).unwrap();
        let decompressed = unzip(&compressed).unwrap();

        assert_eq!(
            decompressed, case.input,
            "Roundtrip failed for '{}' at compression level {}",
            case.name, case.compression_level
        );
    }
}

#[test]
fn decompress_large_data() {
    let large_data: Vec<u8> = (0..10000).map(|i| (i % 256) as u8).collect();

    let compressed = zip(&large_data).unwrap();
    let decompressed = unzip(&compressed).unwrap();

    assert_eq!(decompressed, large_data);
}

#[test]
fn decompress_all_zeros() {
    let data = vec![0u8; 5000];
    let compressed = zip(&data).unwrap();
    let decompressed = unzip(&compressed).unwrap();

    assert_eq!(decompressed, data);
}

#[test]
fn archive_errors_say_which_step_failed() {
    assert_eq!(compress_with_lzma2(&[1], 10), Err(ArchiveError::InvalidLevel));
    assert_eq!(compress_with_lzma2(&[1], 255), Err(ArchiveError::InvalidLevel));
    assert_eq!(unzip(&[0, 1, 2, 3, 4, 5]), Err(ArchiveError::Open));
    assert_eq!(unzip(&[]), Err(ArchiveError::Open));
    assert_eq!(
        ArchiveError::InvalidLevel.to_string(),
        "Compression level must be between 0 and 9"
    );
    assert_eq!(ArchiveError::NoFiles.to_string(), "7z archive contains no files");
}

#[test]
fn unpacking_keeps_the_first_entry() {
    let mut kept = FirstEntry::new();
    assert_eq!(kept.content, None);
    assert!(kept.wants_content());
    assert!(!kept.goes_on());
    kept.take(vec![1, 2]);
    assert!(!kept.wants_content());
    assert!(kept.goes_on());
    kept.take(vec![3]);
    assert_eq!(kept.content, Some(vec![1, 2]));
    assert_eq!(wasm_bridge::archive::unzip(ReadOutcome::Walked { kept }), Ok(vec![1, 2]));
}

#[test]
fn unpacking_reports_the_step_that_failed() {
    assert_eq!(wasm_bridge::archive::unzip(ReadOutcome::NotOpened), Err(ArchiveError::Open));
    assert_eq!(wasm_bridge::archive::unzip(ReadOutcome::NotRead), Err(ArchiveError::Read));
    assert_eq!(
        wasm_bridge::archive::unzip(ReadOutcome::Walked { kept: FirstEntry::new() }),
        Err(ArchiveError::NoFiles)
    );
    assert_eq!(
        wasm_bridge::archive::unzip(ReadOutcome::Walked {
            kept: FirstEntry { content: Some(vec![]) }
        }),
        Ok(vec![])
    );
}

#[test]
fn the_level_does_not_change_the_archive() {
    let data = vec![7u8; 300];
    assert_eq!(compress_with_lzma2(&data, 0), compress_with_lzma2(&data, 9));
    assert_eq!(compress_with_lzma2(&data, 6), zip(&data));
    let archive = zip(&data).unwrap();
    assert_eq!(&archive[..6], &[0x37, 0x7A, 0xBC, 0xAF, 0x27, 0x1C]);
    assert_ne!(archive, data);
}

#[test]
fn test_validate_wasm_empty() {
    let empty_bytes = vec![];
    let result = validate_wasm(&empty_bytes);
    assert!(result.is_err());
    assert_eq!(result.unwrap_err().to_string(), "WASM 模块为空");
}

#[test]
fn test_validate_wasm_invalid_magic() {
    let invalid_bytes = vec![0x00, 0x00, 0x00, 0x00];
    let result = validate_wasm(&invalid_bytes);
    assert!(result.is_err());
    assert_eq!(result.unwrap_err().to_string(), "无效的 WASM 魔术数字");
}

#[test]
fn validate_wasm_takes_the_magic_number() {
    assert_eq!(validate_wasm(&[0x00, 0x61, 0x73, 0x6D]), Ok(()));
    assert_eq!(validate_wasm(&[0x00, 0x61, 0x73, 0x6D, 0x01, 0x00, 0x00, 0x00]), Ok(()));
    assert_eq!(validate_wasm(&[0x00, 0x61, 0x73]), Err(WasmFormatError::InvalidMagic));
    assert_eq!(validate_wasm(&[0x01, 0x61, 0x73, 0x6D]), Err(WasmFormatError::InvalidMagic));
    assert_eq!(validate_wasm(&[]), Err(WasmFormatError::Empty));
}

#[test]
fn test_engine_error_type() {
    let error: EngineError = EngineError::msg("Test error");
    assert_eq!(error.to_string(), "Test error");
}

#[test]
fn test_version_consistency() {
    assert_eq!(version_v21(), "wasmtime-21.0");
    assert_eq!(version(), "wasmtime-41.0");

    assert_ne!(version_v21(), version());
}

#[test]
fn a_returned_value_is_given_in_little_endian_bytes() {
    assert_eq!(
        execute("add", RunOutcome::Returned { value: 100 }),
        Ok(100i32.to_le_bytes().to_vec())
    );
    assert_eq!(result_bytes(-2), (-2i32).to_le_bytes().to_vec());
    assert_eq!(result_bytes(i32::MIN), i32::MIN.to_le_bytes().to_vec());
    assert_eq!(result_bytes(0x01020304), vec![4, 3, 2, 1]);
}

#[test]
fn a_failed_run_is_reported_under_a_context() {
    let cause = || EngineError::msg("inner");
    let missing = execute("add", RunOutcome::NotFound { cause: cause() }).unwrap_err();
    assert_eq!(missing.to_string(), "无法找到 'add' 函数或签名不匹配");
    assert_eq!(missing.cause, Some(Box::new(cause())));
    let failed = execute("add", RunOutcome::Failed { cause: cause() }).unwrap_err();
    assert_eq!(failed.to_string(), "函数 'add' 调用失败");
    let start = execute("add", RunOutcome::NotInstantiated { cause: cause() }).unwrap_err();
    assert_eq!(start.to_string(), "无法实例化模块");
    assert_eq!(
        cause().context("outer".to_string()),
        EngineError { message: "outer".to_string(), cause: Some(Box::new(cause())) }
    );
}

#[test]
fn hashing_gives_32_bytes_that_depend_on_the_arguments() {
    let a = hash_with_params(b"password", "somesalt", 32, 2, 1).unwrap();
    assert_eq!(a.len(), 32);
    assert_eq!(hash_with_params(b"password", "somesalt", 32, 2, 1).unwrap(), a);
    assert_ne!(hash_with_params(b"password", "othersalt", 32, 2, 1).unwrap(), a);
    assert_ne!(hash_with_params(b"passwore", "somesalt", 32, 2, 1).unwrap(), a);
    assert_ne!(hash_with_params(b"password", "somesalt", 32, 3, 1).unwrap(), a);
    assert_ne!(a, vec![0u8; 32]);
}

#[test]
fn hashing_with_known_costs_gives_the_known_hash() {
    let expected: Vec<u8> = vec![
        0x09, 0x31, 0x61, 0x15, 0xd5, 0xcf, 0x24, 0xed, 0x5a, 0x15, 0xa3, 0x1a, 0x3b, 0xa3, 0x26,
        0xe5, 0xcf, 0x32, 0xed, 0xc2, 0x47, 0x02, 0x98, 0x7c, 0x02, 0xb6, 0x56, 0x6f, 0x61, 0x91,
        0x3c, 0xf7,
    ];
    assert_eq!(hash_with_params(b"password", "somesalt", 65536, 2, 1), Ok(expected));
}

#[test]
fn hashing_refuses_costs_that_are_not_valid() {
    assert_eq!(hash_with_params(b"pw", "somesalt", 7, 2, 1), Err(HashError::InvalidParams));
    assert_eq!(hash_with_params(b"pw", "somesalt", 15, 2, 2), Err(HashError::InvalidParams));
    assert_eq!(hash_with_params(b"pw", "somesalt", 32, 0, 1), Err(HashError::InvalidParams));
    assert_eq!(hash_with_params(b"pw", "somesalt", 32, 2, 0), Err(HashError::InvalidParams));
    assert!(hash_with_params(b"pw", "somesalt", 16, 1, 2).is_ok());
    assert_eq!(hash_with_params(b"pw", "short", 32, 2, 1), Err(HashError::HashFailed));
    assert_eq!(HashError::HashFailed.to_string(), "Failed to hash password");
    assert_eq!(HashError::InvalidParams.to_string(), "Failed to create Argon2 parameters");
}

#[test]
fn the_default_costs_are_those_of_the_hashing_library() {
    let by_default = hash(b"some random password", "some random salt").unwrap();
    let spelled_out =
        hash_with_params(b"some random password", "some random salt", 19456, 2, 1).unwrap();
    assert_eq!(by_default, spelled_out);
    assert_eq!(hash(b"pw", "short"), Err(HashError::HashFailed));
}

#[test]
fn markdown_is_rendered_as_html() {
    assert_eq!(parse("# Hi"), Ok("<h1>Hi</h1>\n".to_string()));
    assert_eq!(parse("a *b* c"), Ok("<p>a <em>b</em> c</p>\n".to_string()));
    assert_eq!(parse(""), Ok("".to_string()));
}

#[test]
fn the_guest_reports_failures_by_their_message() {
    assert_eq!(App::parse("**x**".to_string()), Ok("<p><strong>x</strong></p>\n".to_string()));
    assert_eq!(App::unzip(read(&[1, 2, 3])), Err("Failed to open 7z archive".to_string()));
    assert_eq!(App::unzip(ReadOutcome::NotRead), Err("Failed to read archive entries".to_string()));
    let packed = App::zip(vec![9, 8, 7]).unwrap();
    assert_eq!(App::unzip(read(&packed)), Ok(vec![9, 8, 7]));
    assert_eq!(
        App::hash(b"pw".to_vec(), "short".to_string()),
        Err("Failed to hash password".to_string())
    );
    assert_eq!(
        App::hash(b"pw".to_vec(), "long enough salt".to_string()),
        hash(b"pw", "long enough salt").map_err(|e| e.to_string())
    );
}

#[test]
fn the_benchmark_run_gives_the_leading_bytes_of_the_hash() {
    let hash = hash_with_params(b"some random password", "some random salt", 1024, 2, 1).unwrap();
    let expected = i64::from_be_bytes([
        hash[0], hash[1], hash[2], hash[3], hash[4], hash[5], hash[6], hash[7],
    ]);
    assert_eq!(run(1), Ok(expected));
    assert_eq!(run(0), Err(HashError::InvalidParams));
    assert_eq!(leading_i64(&[0xff, 0xff, 0xff, 0xff, 0xff, 0xff, 0xff, 0xfe, 0x00]), -2);
    assert_eq!(leading_i64(&[0x80, 0, 0, 0, 0, 0, 0, 0]), i64::MIN);
    assert_eq!(leading_i64(&[0x01, 0x02, 0x03, 0x04, 0x05, 0x06, 0x07, 0x08]), 0x0102030405060708);
}
