use std::path::Path;

use copyverify::files::count;
use copyverify::verify;
use copyverify::verify_path;
use copyverify::verify_path_filtered;
use copyverify::verify_path_with_filtered_logger;
use copyverify::verify_path_with_logger;
use copyverify::FilterPolicy;
use copyverify::RecordCollector;
use copyverify::VerifyErrType;

fn s(p: &Path) -> String {
    p.to_str().unwrap().to_string()
}

#[test]
fn destination_missing_entirely() {
    let tmp = tempfile::tempdir().unwrap();
    let src = tmp.path().join("src");
    fs_err::create_dir_all(&src).unwrap();
    fs_err::write(src.join("f.txt"), b"0123456789").unwrap();
    let dst = tmp.path().join("dst");

    let records = verify_path(&s(&src), &s(&dst));
    assert_eq!(records.len(), 1);
    assert_eq!(records[0].kind, VerifyErrType::DstMissing);

    let mut log = RecordCollector::new();
    let stats = verify_path_with_logger(&s(&src), &s(&dst), &mut log);
    assert_eq!(stats.get(&VerifyErrType::DstMissing), 1);
    assert_eq!(stats.total(), 1);
}

#[test]
fn equal_sizes_match() {
    let tmp = tempfile::tempdir().unwrap();
    let src = tmp.path().join("src");
    let dst = tmp.path().join("dst");
    fs_err::create_dir_all(&src).unwrap();
    fs_err::create_dir_all(&dst).unwrap();
    fs_err::write(src.join("f.txt"), vec![b'x'; 100]).unwrap();
    fs_err::write(dst.join("f.txt"), vec![b'y'; 100]).unwrap();

    let mut log = RecordCollector::new();
    let stats = verify_path_with_logger(&s(&src), &s(&dst), &mut log);
    assert_eq!(stats.get(&VerifyErrType::OK), 1);
    assert_eq!(stats.total(), 1);
    assert_eq!(log.records.len(), 1);
    assert_eq!(log.records[0].kind, VerifyErrType::OK);
}

#[test]
fn truncated_destination_reports_delta() {
    let tmp = tempfile::tempdir().unwrap();
    let src = tmp.path().join("src");
    let dst = tmp.path().join("dst");
    fs_err::create_dir_all(&src).unwrap();
    fs_err::create_dir_all(&dst).unwrap();
    fs_err::write(src.join("f.txt"), vec![b'x'; 100]).unwrap();
    fs_err::write(dst.join("f.txt"), vec![b'y'; 80]).unwrap();

    let records = verify_path(&s(&src), &s(&dst));
    assert_eq!(records.len(), 1);
    assert_eq!(records[0].kind, VerifyErrType::DstSmaller);
    let expected = format!(
        "The source, {}, is bigger than the destination, {}, by 20 bytes.",
        s(&src.join("f.txt")),
        s(&dst.join("f.txt"))
    );
    assert_eq!(records[0].message, expected);
}

#[test]
fn extra_destination_files_are_never_visited() {
    let tmp = tempfile::tempdir().unwrap();
    let src = tmp.path().join("src");
    let dst = tmp.path().join("dst");
    fs_err::create_dir_all(src.join("sub/deep")).unwrap();
    fs_err::create_dir_all(dst.join("sub/deep")).unwrap();
    fs_err::write(src.join("a.txt"), b"aa").unwrap();
    fs_err::write(dst.join("a.txt"), b"aa").unwrap();
    fs_err::write(src.join("sub/b.txt"), b"bbb").unwrap();
    fs_err::write(dst.join("sub/b.txt"), b"bbb").unwrap();
    fs_err::write(src.join("sub/deep/c.txt"), b"c").unwrap();
    fs_err::write(dst.join("sub/deep/c.txt"), b"c").unwrap();
    fs_err::write(dst.join("unrelated.txt"), b"never visited").unwrap();

    let mut log = RecordCollector::new();
    let stats = verify_path_with_logger(&s(&src), &s(&dst), &mut log);
    assert_eq!(stats.get(&VerifyErrType::OK), 3);
    assert_eq!(stats.total(), 3);
}

#[test]
fn empty_source_tree() {
    let tmp = tempfile::tempdir().unwrap();
    let src = tmp.path().join("src");
    let dst = tmp.path().join("dst");
    fs_err::create_dir_all(&src).unwrap();

    let mut log = RecordCollector::new();
    let stats = verify_path_with_logger(&s(&src), &s(&dst), &mut log);
    assert!(stats.is_empty());
    assert_eq!(stats.total(), 0);
    assert_eq!(log.records.len(), 0);
    assert_eq!(verify_path(&s(&src), &s(&dst)).len(), 0);
}

#[test]
fn filter_never_affects_counting() {
    let tmp = tempfile::tempdir().unwrap();
    let src = tmp.path().join("src");
    let dst = tmp.path().join("dst");
    fs_err::create_dir_all(&src).unwrap();
    fs_err::create_dir_all(&dst).unwrap();
    fs_err::write(src.join("ok.txt"), b"same").unwrap();
    fs_err::write(dst.join("ok.txt"), b"same").unwrap();
    fs_err::write(src.join("bad.txt"), b"longer contents").unwrap();
    fs_err::write(dst.join("bad.txt"), b"short").unwrap();

    let mut all_log = RecordCollector::new();
    let all_stats =
        verify_path_with_filtered_logger(&s(&src), &s(&dst), &mut all_log, FilterPolicy::AcceptAll);
    let mut err_log = RecordCollector::new();
    let err_stats = verify_path_with_filtered_logger(
        &s(&src),
        &s(&dst),
        &mut err_log,
        FilterPolicy::ErrorsOnly,
    );

    assert_eq!(all_stats, err_stats);
    assert_eq!(all_stats.get(&VerifyErrType::OK), 1);
    assert_eq!(all_stats.get(&VerifyErrType::DstSmaller), 1);
    assert_eq!(all_log.records.len(), 2);
    assert_eq!(err_log.records.len(), 1);
    assert_eq!(err_log.records[0].kind, VerifyErrType::DstSmaller);

    let err_records = verify_path_filtered(&s(&src), &s(&dst), FilterPolicy::ErrorsOnly);
    assert_eq!(err_records.len(), 1);
    assert_eq!(err_records[0].kind, VerifyErrType::DstSmaller);
}

#[test]
fn unchanged_trees_give_identical_statistics() {
    let tmp = tempfile::tempdir().unwrap();
    let src = tmp.path().join("src");
    let dst = tmp.path().join("dst");
    fs_err::create_dir_all(src.join("sub")).unwrap();
    fs_err::create_dir_all(&dst).unwrap();
    fs_err::write(src.join("a.txt"), b"aaa").unwrap();
    fs_err::write(dst.join("a.txt"), b"aaa").unwrap();
    fs_err::write(src.join("sub/b.txt"), b"bb").unwrap();

    let mut log1 = RecordCollector::new();
    let first = verify_path_with_logger(&s(&src), &s(&dst), &mut log1);
    let mut log2 = RecordCollector::new();
    let second = verify_path_with_logger(&s(&src), &s(&dst), &mut log2);
    assert_eq!(first, second);
    assert_eq!(first.get(&VerifyErrType::OK), 1);
    assert_eq!(first.get(&VerifyErrType::DstMissing), 1);
    assert_eq!(first.total(), 2);
}

#[test]
fn single_chain_preserves_order() {
    let tmp = tempfile::tempdir().unwrap();
    let src = tmp.path().join("src");
    let dst = tmp.path().join("dst");
    fs_err::create_dir_all(src.join("a/b")).unwrap();
    fs_err::write(src.join("a/b/f.txt"), b"data").unwrap();

    let records = verify_path(&s(&src), &s(&dst));
    assert_eq!(records.len(), 1);
    assert_eq!(records[0].kind, VerifyErrType::DstMissing);
    let expected_dst = s(&dst.join("a/b/f.txt"));
    let expected_src = s(&src.join("a/b/f.txt"));
    assert_eq!(
        records[0].message,
        format!("The destination, {}, is missing for the source, {}!", expected_dst, expected_src)
    );
}

#[test]
fn verify_probes_real_paths() {
    let tmp = tempfile::tempdir().unwrap();
    let f = tmp.path().join("f.txt");
    fs_err::write(&f, b"hello").unwrap();
    let g = tmp.path().join("g.txt");
    fs_err::write(&g, b"hello!").unwrap();

    assert_eq!(verify(&s(&f), &s(&f)).kind, VerifyErrType::OK);
    assert_eq!(verify(&s(&f), &s(&g)).kind, VerifyErrType::SrcSmaller);
    assert_eq!(verify(&s(&g), &s(&f)).kind, VerifyErrType::DstSmaller);
    assert_eq!(verify(&s(&tmp.path().join("nope")), &s(&f)).kind, VerifyErrType::SrcMissing);
    assert_eq!(verify(&s(&f), &s(&tmp.path().join("nope"))).kind, VerifyErrType::DstMissing);
}

#[test]
fn count_counts_non_directory_entries() {
    let tmp = tempfile::tempdir().unwrap();
    let root = tmp.path().join("tree");
    fs_err::create_dir_all(root.join("x/y")).unwrap();
    fs_err::write(root.join("one.txt"), b"1").unwrap();
    fs_err::write(root.join("x/two.txt"), b"2").unwrap();
    fs_err::write(root.join("x/y/three.txt"), b"3").unwrap();

    assert_eq!(count(&s(&root)), 3);
    let empty = tmp.path().join("empty");
    fs_err::create_dir_all(&empty).unwrap();
    assert_eq!(count(&s(&empty)), 0);
}
