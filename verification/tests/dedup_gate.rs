use order_capture::dedup::Deduper;

#[test]
fn duplicate_within_window_rejected() {
    let mut gate = Deduper::new(5_000, 16);
    let fp = Deduper::make_fp("https://host/api/c2c/order/detail", 200, 123);
    assert!(gate.admit_at(fp.as_str(), 1_000));
    assert!(!gate.admit_at(fp.as_str(), 2_000));
    assert!(!gate.admit_at(fp.as_str(), 6_000));
}

#[test]
fn readmitted_after_window_elapses() {
    let mut gate = Deduper::new(5_000, 16);
    let fp = Deduper::make_fp("https://host/api/c2c/order/detail", 200, 123);
    assert!(gate.admit_at(fp.as_str(), 1_000));
    assert!(!gate.admit_at(fp.as_str(), 6_000));
    assert!(gate.admit_at(fp.as_str(), 6_001 + 5_000));
}

#[test]
fn rejected_call_still_cleans_up() {
    let mut gate = Deduper::new(1_000, 16);
    let a = Deduper::make_fp("route-a", 200, 1);
    let b = Deduper::make_fp("route-b", 200, 1);
    assert!(gate.admit_at(a.as_str(), 0));
    assert!(gate.admit_at(b.as_str(), 100));
    // The duplicate of b is rejected, but the call itself expires a.
    assert!(!gate.admit_at(b.as_str(), 1_100));
    assert!(gate.admit_at(a.as_str(), 1_150));
}

#[test]
fn capacity_evicts_oldest_inside_window() {
    let mut gate = Deduper::new(1_000_000, 2);
    let a = Deduper::make_fp("route-a", 200, 1);
    let b = Deduper::make_fp("route-b", 200, 1);
    let c = Deduper::make_fp("route-c", 200, 1);
    assert!(gate.admit_at(a.as_str(), 1));
    assert!(gate.admit_at(b.as_str(), 2));
    // The cache is full; admitting c evicts a even though a is fresh.
    assert!(gate.admit_at(c.as_str(), 3));
    assert!(gate.admit_at(a.as_str(), 4));
}

#[test]
fn same_triple_same_fingerprint() {
    let x = Deduper::make_fp("https://host/api", 200, 42);
    let y = Deduper::make_fp("https://host/api", 200, 42);
    assert_eq!(x, y);
}

#[test]
fn fingerprint_depends_on_every_component() {
    let base = Deduper::make_fp("https://host/api", 200, 42);
    assert_ne!(base, Deduper::make_fp("https://host/api2", 200, 42));
    assert_ne!(base, Deduper::make_fp("https://host/api", 404, 42));
    assert_ne!(base, Deduper::make_fp("https://host/api", 200, 43));
    // A sha1 digest rendered as hex: forty digits.
    assert_eq!(base.len(), 40);
    assert!(base.chars().all(|c| c.is_ascii_hexdigit()));
}

#[test]
fn clock_driven_allow_accepts_then_rejects() {
    let mut gate = Deduper::new(60_000, 16);
    let fp = Deduper::make_fp("route", 200, 7);
    assert!(gate.allow(fp.as_str()));
    assert!(!gate.allow(fp.as_str()));
}
