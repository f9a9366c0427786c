use palm_counting_ai::checked_add_u64;
use palm_counting_ai::fetch::accept_status;
use palm_counting_ai::fetch::percent_of;
use palm_counting_ai::fetch::plan_fetch;
use palm_counting_ai::fetch::FetchSession;
use palm_counting_ai::paths::temp_partial_path;
use palm_counting_ai::paths::temp_zip_path;

#[test]
fn plan_rejects_empty_pack() {
    let r = plan_fetch(0, None);
    let e = r.err().expect("a zero-size pack must be rejected");
    assert_eq!(e, "AI pack tidak tersedia (size 0)");
    assert!(e.contains("AI pack tidak tersedia"));
}

#[test]
fn plan_fresh_download() {
    let p = plan_fetch(1_000_000, None).unwrap();
    assert_eq!(p.total, 1_000_000);
    assert_eq!(p.start, 0);
    assert!(!p.delete_partial);
    assert!(p.range_header.is_none());
}

#[test]
fn plan_resume_uses_range_header() {
    let p = plan_fetch(1_000_000, Some(400_000)).unwrap();
    assert_eq!(p.start, 400_000);
    assert!(!p.delete_partial);
    assert_eq!(p.range_header.as_deref(), Some("bytes=400000-"));
}

#[test]
fn plan_discards_stale_partial() {
    let p = plan_fetch(1_000_000, Some(1_000_000)).unwrap();
    assert_eq!(p.start, 0);
    assert!(p.delete_partial);
    assert!(p.range_header.is_none());
    let q = plan_fetch(1_000_000, Some(2_000_000)).unwrap();
    assert_eq!(q.start, 0);
    assert!(q.delete_partial);
}

#[test]
fn status_acceptance() {
    assert!(accept_status(200));
    assert!(accept_status(206));
    assert!(accept_status(204));
    assert!(!accept_status(302));
    assert!(!accept_status(404));
    assert!(!accept_status(500));
}

#[test]
fn percent_rounding() {
    assert_eq!(percent_of(0, 1_000_000), 0);
    assert_eq!(percent_of(400_000, 1_000_000), 40);
    assert_eq!(percent_of(5, 1000), 1);
    assert_eq!(percent_of(4, 1000), 0);
    assert_eq!(percent_of(999_999, 1_000_000), 100);
    assert_eq!(percent_of(1_000_000, 1_000_000), 100);
    assert_eq!(percent_of(2_000_000, 1_000_000), 100);
    assert_eq!(percent_of(7, 0), 0);
}

// A pack download that pauses at 400,000 bytes and resumes: the pause event
// carries the paused counters, the resumed attempt ends at 100 percent, and
// the committed bytes equal one full download.
#[test]
fn pause_and_resume_round_trip() {
    let total: u64 = 1_000_000;
    let content: Vec<u8> = (0..total).map(|i| (i % 251) as u8).collect();

    // First attempt: fresh start, 400,000 bytes arrive, then the cancel
    // flag is observed.
    let plan = plan_fetch(total, None).unwrap();
    assert_eq!(plan.start, 0);
    let mut s = FetchSession::begin(total, plan.start);
    let mut disk: Vec<u8> = Vec::new();
    let mut last_downloaded = 0u64;
    for chunk in content[..400_000].chunks(100_000) {
        let c: Vec<u8> = chunk.to_vec();
        assert!(checked_add_u64(s.downloaded, c.len() as u64).is_some());
        let ev = s.on_chunk(&c);
        assert!(ev.downloaded > last_downloaded);
        last_downloaded = ev.downloaded;
        disk.extend_from_slice(&c);
    }
    let paused = s.on_cancel();
    assert_eq!(paused.downloaded, 400_000);
    assert_eq!(paused.total, total);
    assert!(!s.complete());

    // Resume: the plan asks for the remainder, the server sends it, the
    // last progress event reads 100 percent, and the commit is allowed.
    let plan2 = plan_fetch(total, Some(disk.len() as u64)).unwrap();
    assert_eq!(plan2.start, 400_000);
    assert_eq!(plan2.range_header.as_deref(), Some("bytes=400000-"));
    let mut s2 = FetchSession::begin(total, plan2.start);
    let mut last = None;
    for chunk in content[400_000..].chunks(100_000) {
        let c: Vec<u8> = chunk.to_vec();
        let ev = s2.on_chunk(&c);
        disk.extend_from_slice(&c);
        last = Some(ev);
    }
    let last = last.unwrap();
    assert_eq!(last.downloaded, total);
    assert_eq!(last.percent, 100);
    assert!(s2.complete());
    assert_eq!(disk.len() as u64, total);
    assert_eq!(disk, content);
}

#[test]
fn fixed_download_file_names() {
    assert_eq!(temp_partial_path("/tmp"), "/tmp/palm-ai-pack-download.partial");
    assert_eq!(temp_zip_path("/tmp"), "/tmp/palm-ai-pack-download.zip");
}

#[test]
fn checked_addition() {
    assert_eq!(checked_add_u64(1, 2), Some(3));
    assert_eq!(checked_add_u64(u64::MAX, 0), Some(u64::MAX));
    assert_eq!(checked_add_u64(u64::MAX, 1), None);
}
