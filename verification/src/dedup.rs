//! Time-windowed event deduplication: a fingerprint over the triple
//! (route, status, body length) and a sliding-window cache that admits a
//! fingerprint at most once per window, with capacity-based eviction of
//! the oldest entry.
use vstd::prelude::*;
use vstd::string::StringExecFns;

use sha1::Digest;

use crate::strutil::str_eq;

verus! {

/// The fingerprint of an event triple; the digest depends on the
/// arguments alone.
pub uninterp spec fn fp_of(url: Seq<char>, status: i64, body_len: usize) -> Seq<char>;

/// One stored cache entry: a fingerprint and its insertion time, in
/// epoch milliseconds.
pub ghost struct DedupModel {
    pub window: u64,
    pub max: usize,
    pub entries: Seq<(Seq<char>, u64)>,
}

/// An entry has left the window at time `now`.
pub open spec fn expired(t: u64, now: u64, window: u64) -> bool {
    t + window < now
}

/// Drops expired entries from the front, oldest first, exactly as the
/// cleanup pass of `admit_at` does.
pub open spec fn evict_old(entries: Seq<(Seq<char>, u64)>, now: u64, window: u64) -> Seq<
    (Seq<char>, u64),
>
    decreases entries.len(),
{
    if entries.len() > 0 && expired(entries[0].1, now, window) {
        evict_old(entries.drop_first(), now, window)
    } else {
        entries
    }
}

/// Some stored entry carries this fingerprint.
pub open spec fn has_fp(entries: Seq<(Seq<char>, u64)>, fp: Seq<char>) -> bool {
    exists|i: int| 0 <= i < entries.len() && (#[trigger] entries[i]).0 == fp
}

/// Whether a fingerprint is admitted at time `now`: it is absent from
/// the cleaned-up window.
pub open spec fn admit_ok(
    entries: Seq<(Seq<char>, u64)>,
    fp: Seq<char>,
    now: u64,
    window: u64,
) -> bool {
    !has_fp(evict_old(entries, now, window), fp)
}

/// The stored entries after one `admit_at` call: cleanup, then membership
/// test, then insertion at the tail, then capacity eviction.
pub open spec fn admit_entries(
    entries: Seq<(Seq<char>, u64)>,
    fp: Seq<char>,
    now: u64,
    window: u64,
    max: usize,
) -> Seq<(Seq<char>, u64)> {
    let cleaned = evict_old(entries, now, window);
    if has_fp(cleaned, fp) {
        cleaned
    } else {
        let pushed = cleaned.push((fp, now));
        if pushed.len() > max {
            pushed.drop_first()
        } else {
            pushed
        }
    }
}

/// The stored pairs as plain values.
pub open spec fn ents_view(s: Seq<(String, u64)>) -> Seq<(Seq<char>, u64)> {
    s.map_values(|p: (String, u64)| (p.0@, p.1))
}

/// The deduplication cache: a queue of (fingerprint, insertion time)
/// entries, bounded by a time window and a maximum entry count.
pub struct Deduper {
    window_ms: u64,
    max_entries: usize,
    entries: Vec<(String, u64)>,
}

impl View for Deduper {
    type V = DedupModel;

    closed spec fn view(&self) -> DedupModel {
        DedupModel {
            window: self.window_ms,
            max: self.max_entries,
            entries: ents_view(self.entries@),
        }
    }
}

/// Relies on chrono's `Utc::now` and `DateTime::timestamp_millis` for
/// the arrival time of an event; nothing is assumed of the value.
#[verifier::external_body]
fn now_millis() -> i64 {
    chrono::Utc::now().timestamp_millis()
}

fn is_expired(t: u64, now: u64, window: u64) -> (r: bool)
    ensures
        r == expired(t, now, window),
{
    now > window && t < now - window
}

impl Deduper {
    pub fn new(window_ms: u64, max_entries: usize) -> (r: Self)
        ensures
            r@.window == window_ms,
            r@.max == max_entries,
            r@.entries == Seq::<(Seq<char>, u64)>::empty(),
    {
        let r = Deduper { window_ms, max_entries, entries: Vec::new() };
        proof {
            assert(r@.entries =~= Seq::<(Seq<char>, u64)>::empty());
        }
        r
    }

    /// Relies on sha1's `Sha1` (`Digest::update`, `Digest::finalize`)
    /// and the lower-hex rendering of its digest: the result depends on
    /// the three arguments alone.
    #[verifier::external_body]
    pub fn make_fp(url: &str, status: i64, body_len: usize) -> (r: String)
        ensures
            r@ == fp_of(url@, status, body_len),
    {
        let mut h = sha1::Sha1::new();
        h.update(url.as_bytes());
        h.update(status.to_le_bytes());
        h.update(body_len.to_le_bytes());
        format!("{:x}", h.finalize())
    }

    /// One deduplication step at a caller-supplied time: cleans up the window,
    /// rejects a stored fingerprint, otherwise stores it, evicting the
    /// oldest entry over capacity. The cache is mutated on every call.
    pub fn admit_at(&mut self, fp: &str, now: u64) -> (r: bool)
        ensures
            final(self)@.window == old(self)@.window,
            final(self)@.max == old(self)@.max,
            r == admit_ok(old(self)@.entries, fp@, now, old(self)@.window),
            final(self)@.entries == admit_entries(
                old(self)@.entries,
                fp@,
                now,
                old(self)@.window,
                old(self)@.max,
            ),
    {
        let w = self.window_ms;
        while self.entries.len() > 0 && is_expired(self.entries[0].1, now, w)
            invariant
                w == self.window_ms,
                self.window_ms == old(self)@.window,
                self.max_entries == old(self)@.max,
                evict_old(ents_view(self.entries@), now, w) == evict_old(
                    old(self)@.entries,
                    now,
                    w,
                ),
            decreases self.entries@.len(),
        {
            proof {
                let ev = ents_view(self.entries@);
                assert(ev[0] == (self.entries@[0].0@, self.entries@[0].1));
                assert(expired(ev[0].1, now, w));
                assert(self.entries@.remove(0) =~= self.entries@.drop_first());
                assert(ents_view(self.entries@.drop_first()) =~= ev.drop_first());
            }
            self.entries.remove(0);
        }
        proof {
            let ev = ents_view(self.entries@);
            assert(evict_old(ev, now, w) == ev);
        }
        let n = self.entries.len();
        let mut i: usize = 0;
        while i < n
            invariant
                n == self.entries@.len(),
                0 <= i <= n,
                w == self.window_ms,
                self.window_ms == old(self)@.window,
                self.max_entries == old(self)@.max,
                ents_view(self.entries@) == evict_old(old(self)@.entries, now, w),
                forall|k: int|
                    0 <= k < i ==> (#[trigger] ents_view(self.entries@)[k]).0 != fp@,
            decreases n - i,
        {
            if str_eq(self.entries[i].0.as_str(), fp) {
                proof {
                    let ev = ents_view(self.entries@);
                    assert(ev[i as int].0 == fp@);
                    assert(has_fp(ev, fp@));
                }
                return false;
            }
            i = i + 1;
        }
        proof {
            let ev = ents_view(self.entries@);
            assert(!has_fp(ev, fp@)) by {
                if has_fp(ev, fp@) {
                    let k = choose|k: int| 0 <= k < ev.len() && (#[trigger] ev[k]).0 == fp@;
                    assert(ev[k].0 != fp@);
                }
            }
        }
        let ghost cleaned = ents_view(self.entries@);
        self.entries.push((String::from_str(fp), now));
        proof {
            assert(ents_view(self.entries@) =~= cleaned.push((fp@, now)));
        }
        if self.entries.len() > self.max_entries {
            proof {
                assert(self.entries@.remove(0) =~= self.entries@.drop_first());
                assert(ents_view(self.entries@.drop_first()) =~= ents_view(
                    self.entries@,
                ).drop_first());
            }
            self.entries.remove(0);
        }
        true
    }

    /// One deduplication step at the arrival time read from the clock. Whatever
    /// the clock returned, the cache makes one transition at some time.
    pub fn allow(&mut self, fp: &str) -> (r: bool)
        ensures
            final(self)@.window == old(self)@.window,
            final(self)@.max == old(self)@.max,
            exists|now: u64|
                r == admit_ok(old(self)@.entries, fp@, now, old(self)@.window)
                    && final(self)@.entries == #[trigger] admit_entries(
                    old(self)@.entries,
                    fp@,
                    now,
                    old(self)@.window,
                    old(self)@.max,
                ),
    {
        let t = now_millis();
        let now: u64 = if t < 0 {
            0
        } else {
            t as u64
        };
        let r = self.admit_at(fp, now);
        proof {
            assert(r == admit_ok(old(self)@.entries, fp@, now, old(self)@.window)
                && final(self)@.entries == admit_entries(
                old(self)@.entries,
                fp@,
                now,
                old(self)@.window,
                old(self)@.max,
            ));
        }
        r
    }
}

/// An entry still inside the window survives the cleanup pass.
pub proof fn lemma_evict_keeps_unexpired(
    entries: Seq<(Seq<char>, u64)>,
    now: u64,
    window: u64,
    i: int,
)
    requires
        0 <= i < entries.len(),
        !expired(entries[i].1, now, window),
    ensures
        evict_old(entries, now, window).contains(entries[i]),
    decreases entries.len(),
{
    if entries.len() > 0 && expired(entries[0].1, now, window) {
        assert(entries.drop_first()[i - 1] == entries[i]);
        lemma_evict_keeps_unexpired(entries.drop_first(), now, window, i - 1);
    } else {
        assert(evict_old(entries, now, window)[i] == entries[i]);
    }
}

/// Dedup, rejection half: a fingerprint stored at `t0` is rejected at
/// any `now` at most a window after `t0`.
pub proof fn lemma_duplicate_rejected(
    entries: Seq<(Seq<char>, u64)>,
    fp: Seq<char>,
    t0: u64,
    now: u64,
    window: u64,
)
    requires
        entries.contains((fp, t0)),
        now <= t0 + window,
    ensures
        !admit_ok(entries, fp, now, window),
{
    let i = choose|i: int| 0 <= i < entries.len() && entries[i] == (fp, t0);
    lemma_evict_keeps_unexpired(entries, now, window, i);
    let cleaned = evict_old(entries, now, window);
    let k = choose|k: int| 0 <= k < cleaned.len() && cleaned[k] == entries[i];
    assert(cleaned[k].0 == fp);
}

/// Cleanup of a fully expired window empties it.
pub proof fn lemma_evict_all_expired(entries: Seq<(Seq<char>, u64)>, now: u64, window: u64)
    requires
        forall|i: int| 0 <= i < entries.len() ==> expired((#[trigger] entries[i]).1, now, window),
    ensures
        evict_old(entries, now, window) == Seq::<(Seq<char>, u64)>::empty(),
    decreases entries.len(),
{
    if entries.len() > 0 {
        assert(forall|i: int|
            0 <= i < entries.drop_first().len() ==> (#[trigger] entries.drop_first()[i])
                == entries[i + 1]);
        lemma_evict_all_expired(entries.drop_first(), now, window);
    } else {
        assert(entries =~= Seq::<(Seq<char>, u64)>::empty());
    }
}

/// Dedup, re-admission half: once the window has elapsed past every
/// stored entry, a fingerprint is admitted again, and the cache holds
/// exactly its new entry.
pub proof fn lemma_admitted_after_window(
    entries: Seq<(Seq<char>, u64)>,
    fp: Seq<char>,
    now: u64,
    window: u64,
    max: usize,
)
    requires
        forall|i: int| 0 <= i < entries.len() ==> expired((#[trigger] entries[i]).1, now, window),
        max >= 1,
    ensures
        admit_ok(entries, fp, now, window),
        admit_entries(entries, fp, now, window, max) == seq![(fp, now)],
{
    lemma_evict_all_expired(entries, now, window);
    assert(Seq::<(Seq<char>, u64)>::empty().push((fp, now)) =~= seq![(fp, now)]);
}

/// Capacity eviction: at capacity, admitting a fresh fingerprint drops
/// the oldest entry even though it is still inside the window.
pub proof fn lemma_capacity_evicts_oldest(
    entries: Seq<(Seq<char>, u64)>,
    fp: Seq<char>,
    now: u64,
    window: u64,
    max: usize,
)
    requires
        forall|i: int| 0 <= i < entries.len() ==> !expired((#[trigger] entries[i]).1, now, window),
        !has_fp(entries, fp),
        entries.len() == max,
        max >= 1,
    ensures
        admit_ok(entries, fp, now, window),
        admit_entries(entries, fp, now, window, max) == entries.drop_first().push((fp, now)),
{
    assert(evict_old(entries, now, window) == entries);
    assert(entries.push((fp, now)).drop_first() =~= entries.drop_first().push((fp, now)));
}

} // verus!
