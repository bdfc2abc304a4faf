use parzip::pipeline::FileFailure;
use parzip::pipeline::FileInput;
use parzip::pipeline::ReadError;
use parzip::ArchiveError;

fn input(path: &str, data: &[u8]) -> FileInput {
    FileInput { rel_path: path.as_bytes().to_vec(), contents: Ok(data.to_vec()) }
}

fn bad_input(path: &str, err: ReadError) -> FileInput {
    FileInput { rel_path: path.as_bytes().to_vec(), contents: Err(err) }
}

#[test]
fn roundtrip_two_files() {
    let a = b"hello world".to_vec();
    let mut b = Vec::new();
    for i in 0..2048 {
        b.push((i % 251) as u8);
    }
    let inputs = vec![input("a.txt", &a), input("dir/b.bin", &b)];
    let results = parzip::run_pipeline(inputs, parzip::DEFAULT_LEVEL);
    assert_eq!(results.len(), 2);
    assert!(results[0].success && results[1].success);
    let archive = parzip::write_archive(&results, parzip::DEFAULT_LEVEL);
    let files = parzip::read_archive(&archive).unwrap();
    assert_eq!(files.len(), 2);
    assert_eq!(files[0].rel_path, b"a.txt".to_vec());
    assert_eq!(files[1].rel_path, b"dir/b.bin".to_vec());
    assert_eq!(parzip::decode_payload(&files[0].data).unwrap(), a);
    assert_eq!(parzip::decode_payload(&files[1].data).unwrap(), b);
}

#[test]
fn isolation_one_unreadable() {
    let inputs = vec![
        input("one.txt", b"first"),
        bad_input("two.txt", ReadError::OpenFailed),
        input("three.txt", b"third"),
    ];
    let results = parzip::run_pipeline(inputs, 3);
    assert_eq!(results.len(), 3);
    assert!(results[0].success);
    assert!(!results[1].success);
    assert_eq!(results[1].failure, Some(FileFailure::OpenFailed));
    assert_eq!(results[1].rel_path, b"two.txt".to_vec());
    assert!(results[1].payload.is_empty());
    assert!(results[2].success);
    let archive = parzip::write_archive(&results, 3);
    let files = parzip::read_archive(&archive).unwrap();
    assert_eq!(files.len(), 2);
    assert_eq!(files[0].rel_path, b"one.txt".to_vec());
    assert_eq!(files[1].rel_path, b"three.txt".to_vec());
    assert_eq!(parzip::decode_payload(&files[0].data).unwrap(), b"first".to_vec());
    assert_eq!(parzip::decode_payload(&files[1].data).unwrap(), b"third".to_vec());
}

#[test]
fn extract_twice_identical() {
    let inputs = vec![input("x/y.txt", b"same either way"), input("z.txt", b"zzz")];
    let results = parzip::run_pipeline(inputs, 3);
    let archive = parzip::write_archive(&results, 3);
    let first = parzip::read_archive(&archive).unwrap();
    let second = parzip::read_archive(&archive).unwrap();
    assert_eq!(first.len(), second.len());
    for (f, s) in first.iter().zip(second.iter()) {
        assert_eq!(f.rel_path, s.rel_path);
        assert_eq!(f.data, s.data);
    }
}

#[test]
fn empty_run_gives_empty_archive() {
    let results = parzip::run_pipeline(Vec::new(), 3);
    assert_eq!(results.len(), 0);
    let archive = parzip::write_archive(&results, 3);
    let files = parzip::read_archive(&archive).unwrap();
    assert_eq!(files.len(), 0);
}

#[test]
fn unsafe_path_rejected() {
    let mut h = tar::Header::new_gnu();
    let name = b"../../evil";
    h.as_gnu_mut().unwrap().name[..name.len()].copy_from_slice(name);
    h.set_size(4);
    h.set_cksum();
    let mut builder = tar::Builder::new(Vec::new());
    builder.append(&h, &b"boom"[..]).unwrap();
    let stream = builder.into_inner().unwrap();
    let archive = zstd::stream::encode_all(&stream[..], 3).unwrap();
    let r = parzip::read_archive(&archive);
    assert_eq!(r.err(), Some(ArchiveError::UnsafePathError));
}

#[test]
fn completeness_many_files() {
    let n = 25;
    let mut inputs = Vec::new();
    for i in 0..n {
        let path = format!("part{}.dat", i);
        let data = vec![i as u8; 64 + i];
        inputs.push(input(&path, &data));
    }
    let results = parzip::run_pipeline(inputs, 3);
    assert_eq!(results.len(), n);
    for (i, e) in results.iter().enumerate() {
        assert_eq!(e.rel_path, format!("part{}.dat", i).into_bytes());
        assert!(e.success);
        assert_eq!(e.size as usize, e.payload.len());
    }
    let archive = parzip::write_archive(&results, 3);
    let files = parzip::read_archive(&archive).unwrap();
    assert_eq!(files.len(), n);
}

#[test]
fn decode_error_on_garbage() {
    let garbage = b"this is not an archive at all".to_vec();
    assert_eq!(parzip::read_archive(&garbage).err(), Some(ArchiveError::DecodeError));
}

#[test]
fn decode_error_on_compressed_garbage() {
    let junk = b"still not a container once decoded, just bytes".to_vec();
    let archive = zstd::stream::encode_all(&junk[..], 3).unwrap();
    assert_eq!(parzip::read_archive(&archive).err(), Some(ArchiveError::DecodeError));
}

#[test]
fn writer_skips_failed_entries_silently() {
    let inputs = vec![bad_input("gone.txt", ReadError::ReadFailed)];
    let results = parzip::run_pipeline(inputs, 3);
    assert_eq!(results.len(), 1);
    assert_eq!(results[0].failure, Some(FileFailure::ReadFailed));
    let archive = parzip::write_archive(&results, 3);
    let files = parzip::read_archive(&archive).unwrap();
    assert_eq!(files.len(), 0);
}

#[test]
fn roundtrip_longest_encodable_path() {
    let mut path = String::from("deep/nested/route/");
    while path.len() < 99 {
        path.push('q');
    }
    path.push('z');
    assert_eq!(path.len(), 100);
    let data = b"at the boundary".to_vec();
    let inputs = vec![input(&path, &data)];
    let results = parzip::run_pipeline(inputs, 3);
    assert!(results[0].success);
    let archive = parzip::write_archive(&results, 3);
    let files = parzip::read_archive(&archive).unwrap();
    assert_eq!(files.len(), 1);
    assert_eq!(files[0].rel_path, path.clone().into_bytes());
    assert_eq!(parzip::decode_payload(&files[0].data).unwrap(), data);
}
