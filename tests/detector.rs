use poll::detector::{fingerprint, same_bytes, ChangeDetector};

fn hex(b: &[u8]) -> String {
    b.iter().map(|x| format!("{:02x}", x)).collect()
}

#[test]
fn fingerprint_is_sha1() {
    assert_eq!(hex(&fingerprint(b"abc")), "a9993e364706816aba3e25717850c26c9cd0d89d");
    assert_eq!(hex(&fingerprint(b"")), "da39a3ee5e6b4b0d3255bfef95601890afd80709");
}

#[test]
fn first_poll_always_reported() {
    let mut d = ChangeDetector::new();
    assert!(d.check(b""));
    let mut d = ChangeDetector::new();
    assert!(d.check(b"anything"));
}

#[test]
fn flicker_reports_every_transition() {
    let mut d = ChangeDetector::new();
    let flags: Vec<bool> = [&b"A"[..], b"B", b"A"].iter().map(|o| d.check(o)).collect();
    assert_eq!(flags, vec![true, true, true]);
}

#[test]
fn plateau_reports_once_per_change() {
    let mut d = ChangeDetector::new();
    let flags: Vec<bool> = [&b"A"[..], b"A", b"A", b"B"].iter().map(|o| d.check(o)).collect();
    assert_eq!(flags, vec![true, false, false, true]);
}

#[test]
fn fingerprints_compared_byte_for_byte() {
    let mut d = ChangeDetector::new();
    assert!(d.check_fingerprint(vec![1, 2, 3]));
    assert!(!d.check_fingerprint(vec![1, 2, 3]));
    assert!(d.check_fingerprint(vec![1, 2]));
    assert!(d.check_fingerprint(vec![1, 2, 3]));
}

#[test]
fn byte_equality() {
    assert!(same_bytes(b"", b""));
    assert!(same_bytes(b"ab", b"ab"));
    assert!(!same_bytes(b"ab", b"ac"));
    assert!(!same_bytes(b"ab", b"abc"));
}
