use parzip::pipeline::FileFailure;
use parzip::pipeline::ProcessedEntry;
use parzip::pipeline::ReadError;

fn safe(path: &[u8]) -> bool {
    parzip::check_rel_path(&path.to_vec())
}

fn encodable(path: &[u8]) -> bool {
    parzip::check_tar_encodable(&path.to_vec())
}

#[test]
fn safe_path_accepts_plain_relative_paths() {
    assert!(safe(b"file.txt"));
    assert!(safe(b"dir/file.txt"));
    assert!(safe(b"a/b/c/d"));
    assert!(safe(b"odd name with spaces"));
    assert!(safe(b"...three-dots-is-a-name"));
    assert!(safe(b"dots.in.the/middle..txt"));
}

#[test]
fn safe_path_rejects_escapes_and_malformed_paths() {
    assert!(!safe(b""));
    assert!(!safe(b"/absolute"));
    assert!(!safe(b"trailing/"));
    assert!(!safe(b"double//slash"));
    assert!(!safe(b".."));
    assert!(!safe(b"."));
    assert!(!safe(b"../up"));
    assert!(!safe(b"a/../b"));
    assert!(!safe(b"a/.."));
    assert!(!safe(b"./here"));
    assert!(!safe(b"a/./b"));
    assert!(!safe(b"nul\0byte"));
    assert!(!safe(b"back\\slash"));
}

#[test]
fn encodable_path_limits() {
    assert!(encodable(b"just-a-file.txt"));
    let hundred = vec![b'x'; 100];
    assert!(encodable(&hundred));
    let hundred_one = vec![b'x'; 101];
    assert!(!encodable(&hundred_one));
    assert!(!encodable("caf\u{e9}.txt".as_bytes()));
    assert!(!encodable(b"back\\slash"));
    assert!(!encodable(b"../escape"));
}

#[test]
fn process_file_records_read_failures() {
    let e = parzip::process_file(b"a.txt".to_vec(), Err(ReadError::OpenFailed), 3);
    assert!(!e.success);
    assert_eq!(e.failure, Some(FileFailure::OpenFailed));
    assert_eq!(e.rel_path, b"a.txt".to_vec());
    assert!(e.payload.is_empty());
    assert_eq!(e.size, 0);

    let e = parzip::process_file(b"b.txt".to_vec(), Err(ReadError::ReadFailed), 3);
    assert_eq!(e.failure, Some(FileFailure::ReadFailed));
}

#[test]
fn process_file_records_path_encoding_failure() {
    let long = vec![b'p'; 120];
    let e = parzip::process_file(long.clone(), Ok(b"data".to_vec()), 3);
    assert!(!e.success);
    assert_eq!(e.failure, Some(FileFailure::PathEncodingError));
    assert_eq!(e.rel_path, long);
    assert!(e.payload.is_empty());
}

#[test]
fn process_file_payload_is_really_compressed() {
    let data = b"abcabcabcabcabcabcabcabc".to_vec();
    let e = parzip::process_file(b"c.txt".to_vec(), Ok(data.clone()), 3);
    assert!(e.success);
    assert_eq!(e.size as usize, e.payload.len());
    // The payload is a compressed frame, not the raw bytes handed back.
    assert_ne!(e.payload, data);
    assert_eq!(parzip::decode_payload(&e.payload).unwrap(), data);
}

#[test]
fn build_entry_records_codec_refusal() {
    let e = parzip::pipeline::build_entry(b"d.txt".to_vec(), None);
    assert!(!e.success);
    assert_eq!(e.failure, Some(FileFailure::CompressError));
    assert!(e.payload.is_empty());
}

#[test]
fn decode_payload_rejects_garbage() {
    assert!(parzip::decode_payload(&b"not a frame".to_vec()).is_none());
}

#[test]
fn total_expected_bytes_is_the_exact_sum() {
    assert_eq!(parzip::total_expected_bytes(&Vec::new()), 0);
    assert_eq!(parzip::total_expected_bytes(&vec![1u64, 2, 3]), 6);
    assert_eq!(parzip::total_expected_bytes(&vec![0u64, 0, 7, 9000]), 9007);
}

#[test]
fn results_well_formed_checks_entries() {
    let results = parzip::run_pipeline(
        vec![parzip::FileInput { rel_path: b"ok.txt".to_vec(), contents: Ok(b"x".to_vec()) }],
        3,
    );
    assert!(parzip::results_well_formed(&results));
    let bogus = vec![ProcessedEntry {
        rel_path: b"bad".to_vec(),
        payload: Vec::new(),
        size: 9,
        success: true,
        failure: Some(FileFailure::CompressError),
    }];
    assert!(!parzip::results_well_formed(&bogus));
}

#[test]
fn empty_file_compresses_and_restores() {
    let e = parzip::process_file(b"empty".to_vec(), Ok(Vec::new()), 3);
    assert!(e.success);
    assert_eq!(parzip::decode_payload(&e.payload).unwrap(), Vec::<u8>::new());
}
