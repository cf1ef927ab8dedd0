use copyverify::compare_sizes;
use copyverify::derive_dst_path;
use copyverify::u64_to_dec;
use copyverify::verify_err_accept_all_filter;
use copyverify::verify_err_only_errors_filter;
use copyverify::FilterPolicy;
use copyverify::RecvPoll;
use copyverify::ResultChannel;
use copyverify::VerifyErr;
use copyverify::VerifyErrStats;
use copyverify::VerifyErrType;

#[test]
fn classify_src_missing() {
    let r = compare_sizes("/a/f", "/b/f", None, None);
    assert_eq!(r.kind, VerifyErrType::SrcMissing);
    assert_eq!(r.message, "The source, /a/f, is missing for the destination, /b/f!");
}

#[test]
fn classify_dst_missing() {
    let r = compare_sizes("/a/f", "/b/f", Some(10), None);
    assert_eq!(r.kind, VerifyErrType::DstMissing);
    assert_eq!(r.message, "The destination, /b/f, is missing for the source, /a/f!");
}

#[test]
fn classify_src_smaller() {
    let r = compare_sizes("/a/f", "/b/f", Some(80), Some(100));
    assert_eq!(r.kind, VerifyErrType::SrcSmaller);
    assert_eq!(
        r.message,
        "The source, /a/f, is smaller than the destination, /b/f, by 20 bytes."
    );
}

#[test]
fn classify_dst_smaller_reports_delta() {
    let r = compare_sizes("/a/f", "/b/f", Some(100), Some(80));
    assert_eq!(r.kind, VerifyErrType::DstSmaller);
    assert_eq!(
        r.message,
        "The source, /a/f, is bigger than the destination, /b/f, by 20 bytes."
    );
}

#[test]
fn classify_match() {
    let r = compare_sizes("/a/f", "/b/f", Some(100), Some(100));
    assert_eq!(r.kind, VerifyErrType::OK);
    assert_eq!(r.message, "The source, /a/f, matches with the destination, /b/f");
}

#[test]
fn decimal_rendering() {
    assert_eq!(u64_to_dec(0), "0");
    assert_eq!(u64_to_dec(7), "7");
    assert_eq!(u64_to_dec(10), "10");
    assert_eq!(u64_to_dec(12345), "12345");
    assert_eq!(u64_to_dec(u64::MAX), "18446744073709551615");
}

#[test]
fn filters() {
    assert!(verify_err_accept_all_filter(&VerifyErrType::OK));
    assert!(verify_err_accept_all_filter(&VerifyErrType::SrcMissing));
    assert!(!verify_err_only_errors_filter(&VerifyErrType::OK));
    assert!(verify_err_only_errors_filter(&VerifyErrType::DstMissing));
    assert!(FilterPolicy::AcceptAll.apply(&VerifyErrType::OK));
    assert!(!FilterPolicy::ErrorsOnly.apply(&VerifyErrType::OK));
    assert!(FilterPolicy::ErrorsOnly.apply(&VerifyErrType::DstSmaller));
}

#[test]
fn derive_dst_maps_nested_entry() {
    let d = derive_dst_path("root", "droot", "root/a/b.txt");
    assert_eq!(d.unwrap(), "droot/a/b.txt");
}

#[test]
fn derive_dst_ignores_trailing_separators() {
    let plain = derive_dst_path("root", "droot", "root/a/b.txt").unwrap();
    assert_eq!(derive_dst_path("root/", "droot", "root/a/b.txt").unwrap(), plain);
    assert_eq!(derive_dst_path("root", "droot/", "root/a/b.txt").unwrap(), plain);
    assert_eq!(derive_dst_path("root//", "droot//", "root/a/b.txt").unwrap(), plain);
}

#[test]
fn derive_dst_of_root_itself() {
    assert_eq!(derive_dst_path("root", "droot", "root").unwrap(), "droot");
}

#[test]
fn derive_dst_outside_root() {
    assert!(derive_dst_path("root", "droot", "elsewhere/f").is_none());
    assert!(derive_dst_path("root", "droot", "rootx/f").is_none());
}

#[test]
fn stats_counts() {
    let mut s = VerifyErrStats::new();
    assert!(s.is_empty());
    assert_eq!(s.total(), 0);
    s.increment(VerifyErrType::OK);
    s.increment(VerifyErrType::OK);
    s.increment(VerifyErrType::DstMissing);
    assert_eq!(s.get(&VerifyErrType::OK), 2);
    assert_eq!(s.get(&VerifyErrType::DstMissing), 1);
    assert_eq!(s.get(&VerifyErrType::SrcMissing), 0);
    assert_eq!(s.total(), 3);
    assert!(!s.is_empty());
}

#[test]
fn channel_is_fifo() {
    let mut chan = ResultChannel::new();
    chan.send(VerifyErr { kind: VerifyErrType::OK, message: String::from("first") });
    chan.send(VerifyErr { kind: VerifyErrType::SrcMissing, message: String::from("second") });
    chan.close_sender();
    match chan.try_recv() {
        RecvPoll::Item(e) => {
            assert_eq!(e.kind, VerifyErrType::OK);
            assert_eq!(e.message, "first");
        }
        _ => panic!("expected the first record"),
    }
    match chan.try_recv() {
        RecvPoll::Item(e) => {
            assert_eq!(e.kind, VerifyErrType::SrcMissing);
            assert_eq!(e.message, "second");
        }
        _ => panic!("expected the second record"),
    }
    match chan.try_recv() {
        RecvPoll::Closed => {}
        _ => panic!("expected the closed end of the stream"),
    }
}

#[test]
fn emit_records_sends_one_record_per_entry() {
    let entries = vec![
        String::from("root/a/f.txt"),
        String::from("root/g.txt"),
    ];
    let mut chan = ResultChannel::new();
    copyverify::emit_records("root", "droot", &entries, &mut chan);
    chan.close_sender();
    let mut got: Vec<VerifyErr> = Vec::new();
    loop {
        match chan.try_recv() {
            RecvPoll::Item(e) => got.push(e),
            RecvPoll::Closed => break,
            RecvPoll::Pending => panic!("the sender is closed"),
        }
    }
    assert_eq!(got.len(), 2);
    assert_eq!(got[0].kind, VerifyErrType::SrcMissing);
    assert_eq!(
        got[0].message,
        "The source, root/a/f.txt, is missing for the destination, droot/a/f.txt!"
    );
    assert_eq!(got[1].kind, VerifyErrType::SrcMissing);
    assert_eq!(
        got[1].message,
        "The source, root/g.txt, is missing for the destination, droot/g.txt!"
    );
}

#[test]
fn channel_open_and_empty_is_pending() {
    let mut chan = ResultChannel::new();
    match chan.try_recv() {
        RecvPoll::Pending => {}
        _ => panic!("expected an empty but open poll"),
    }
}
