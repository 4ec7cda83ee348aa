//! Per-message ingestion logic: envelope decode, route classification,
//! the deduplication cache with its list-endpoint override, and dispatch into
//! the parsers and the store.
use vstd::prelude::*;

use crate::dedup::{admit_entries, admit_ok, fp_of, Deduper, DedupModel};
use crate::json::{jfield, jint_or, jstr_opt, jstr_or, JsonVal};
use crate::parser_detail::{detail_data, parse_detail_spec, parse_order_detail};
use crate::parser_list::{parse_list_spec, parse_order_list};
use crate::store::{upsert_detail_spec, upsert_summaries_spec, OrderStore, StoreModel};
use crate::strutil::{contains_sub, has_sub, str_eq};

verus! {

/// Where a route dispatches, decided by substring match in this
/// priority order.
#[derive(Debug, Clone, Copy, PartialEq, Eq, Structural)]
pub enum RouteClass {
    ListEndpoint,
    DetailEndpoint,
    QuickStatus,
    Other,
}

pub open spec fn classify_spec(route: Seq<char>) -> RouteClass {
    if has_sub(route, "order/list"@) {
        RouteClass::ListEndpoint
    } else if has_sub(route, "order/detail"@) {
        RouteClass::DetailEndpoint
    } else if has_sub(route, "order/status"@) {
        RouteClass::QuickStatus
    } else {
        RouteClass::Other
    }
}

pub fn classify(route: &str) -> (r: RouteClass)
    ensures
        r == classify_spec(route@),
{
    if contains_sub(route, "order/list") {
        RouteClass::ListEndpoint
    } else if contains_sub(route, "order/detail") {
        RouteClass::DetailEndpoint
    } else if contains_sub(route, "order/status") {
        RouteClass::QuickStatus
    } else {
        RouteClass::Other
    }
}

/// The envelope carries the capture tag; any other kind passes through
/// untouched.
pub open spec fn is_capture(env: JsonVal) -> bool {
    match jstr_opt(env, "kind"@) {
        Some(k) => k == "NET_CAPTURE"@,
        None => false,
    }
}

fn is_capture_exec(env: &JsonVal) -> (r: bool)
    ensures
        r == is_capture(*env),
{
    match env.str_opt("kind") {
        Some(k) => str_eq(k.as_str(), "NET_CAPTURE"),
        None => false,
    }
}

pub open spec fn payload_of(env: JsonVal) -> Option<JsonVal> {
    jfield(env, "payload"@)
}

/// The effective body: the payload's `data` field when present, else
/// the payload itself.
pub open spec fn body_of(payload: JsonVal) -> JsonVal {
    match jfield(payload, "data"@) {
        Some(d) => d,
        None => payload,
    }
}

pub open spec fn route_of(payload: JsonVal) -> Seq<char> {
    jstr_or(payload, "url"@, Seq::<char>::empty())
}

pub open spec fn status_of(payload: JsonVal) -> i64 {
    jint_or(payload, "status"@, 0i64)
}

pub open spec fn ts_of(payload: JsonVal) -> i64 {
    jint_or(payload, "ts"@, 0i64)
}

/// The status code observed on a quick-status response, read at the
/// same nested path the other endpoints use.
pub open spec fn quick_code_of(body: JsonVal) -> i64 {
    match detail_data(body) {
        Some(obj) => jint_or(obj, "orderStatus"@, -1i64),
        None => -1i64,
    }
}

fn quick_code_exec(body: &JsonVal) -> (r: i64)
    ensures
        r == quick_code_of(*body),
{
    match body.get("data") {
        Some(d) => match d.get("data") {
            Some(obj) => obj.int_or("orderStatus", -1),
            None => -1,
        },
        None => -1,
    }
}

/// What one inbound message came to.
#[derive(Debug, Clone, Copy, PartialEq, Eq, Structural)]
pub enum Dispatch {
    /// Other traffic kinds, an absent payload, or an unmatched route.
    Ignored,
    /// A duplicate fingerprint on a route without the list override.
    Rejected,
    /// The batch handed to the store, with the deduper's verdict.
    MergedSummaries { count: usize, admitted: bool },
    /// The detail record handed to the store.
    MergedDetail { admitted: bool },
    /// A detail response without an order number; nothing extracted.
    NoDetailRecord { admitted: bool },
    /// A quick-status response, observed without store mutation.
    ObservedStatus { code: i64 },
}

/// Everything one `handle_message` call does, as a relation between
/// the states before and after.
pub open spec fn handle_post(
    env: JsonVal,
    body_len: usize,
    now: u64,
    g0: DedupModel,
    g1: DedupModel,
    s0: StoreModel,
    s1: StoreModel,
    r: Dispatch,
) -> bool {
    if !is_capture(env) || payload_of(env) is None {
        &&& g1 == g0
        &&& s1 == s0
        &&& r == Dispatch::Ignored
    } else {
        let payload = match payload_of(env) {
            Some(p) => p,
            None => JsonVal::Null,
        };
        let route = route_of(payload);
        let ts = ts_of(payload);
        let body = body_of(payload);
        let fp = fp_of(route, status_of(payload), body_len);
        let admitted = admit_ok(g0.entries, fp, now, g0.window);
        &&& g1.window == g0.window
        &&& g1.max == g0.max
        &&& g1.entries == admit_entries(g0.entries, fp, now, g0.window, g0.max)
        &&& s1.nickname == s0.nickname
        &&& match classify_spec(route) {
            RouteClass::ListEndpoint => {
                &&& s1.orders == upsert_summaries_spec(s0.orders, parse_list_spec(body), ts)
                &&& (r matches Dispatch::MergedSummaries { count, admitted: a } && count
                    == parse_list_spec(body).len() && a == admitted)
            },
            RouteClass::DetailEndpoint => {
                if admitted {
                    match parse_detail_spec(body) {
                        Some(d) => s1.orders == upsert_detail_spec(s0.orders, d, ts) && r
                            == (Dispatch::MergedDetail { admitted: true }),
                        None => s1.orders == s0.orders && r == (Dispatch::NoDetailRecord {
                            admitted: true,
                        }),
                    }
                } else {
                    s1.orders == s0.orders && r == Dispatch::Rejected
                }
            },
            RouteClass::QuickStatus => {
                &&& s1.orders == s0.orders
                &&& if admitted {
                    r == (Dispatch::ObservedStatus { code: quick_code_of(body) })
                } else {
                    r == Dispatch::Rejected
                }
            },
            RouteClass::Other => {
                &&& s1.orders == s0.orders
                &&& if admitted {
                    r == Dispatch::Ignored
                } else {
                    r == Dispatch::Rejected
                }
            },
        }
    }
}

/// Handles one inbound text message, already decoded: classifies the
/// route, consults the deduper at the caller's arrival time, and
/// dispatches to the parsers and the store. The deduper is mutated on
/// every capture message; a rejected event still reaches the store
/// when its route matches the list endpoint.
pub fn handle_message(
    env: &JsonVal,
    body_len: usize,
    gate: &mut Deduper,
    store: &mut OrderStore,
    now_ms: u64,
) -> (r: Dispatch)
    ensures
        handle_post(
            *env,
            body_len,
            now_ms,
            old(gate)@,
            final(gate)@,
            old(store)@,
            final(store)@,
            r,
        ),
{
    if !is_capture_exec(env) {
        return Dispatch::Ignored;
    }
    let payload = match env.get("payload") {
        Some(p) => p,
        None => {
            return Dispatch::Ignored;
        },
    };
    let route = payload.str_or_empty("url");
    let status = payload.int_or("status", 0);
    let ts = payload.int_or("ts", 0);
    let body = match payload.get("data") {
        Some(d) => d,
        None => payload,
    };
    let fp = Deduper::make_fp(route.as_str(), status, body_len);
    let admitted = gate.admit_at(fp.as_str(), now_ms);
    match classify(route.as_str()) {
        RouteClass::ListEndpoint => {
            let recs = parse_order_list(body);
            let count = recs.len();
            if count > 0 {
                store.upsert_summaries(recs, ts);
            }
            Dispatch::MergedSummaries { count, admitted }
        },
        RouteClass::DetailEndpoint => {
            if admitted {
                match parse_order_detail(body) {
                    Some(d) => {
                        store.upsert_detail(d, ts);
                        Dispatch::MergedDetail { admitted: true }
                    },
                    None => Dispatch::NoDetailRecord { admitted: true },
                }
            } else {
                Dispatch::Rejected
            }
        },
        RouteClass::QuickStatus => {
            if admitted {
                Dispatch::ObservedStatus { code: quick_code_exec(body) }
            } else {
                Dispatch::Rejected
            }
        },
        RouteClass::Other => {
            if admitted {
                Dispatch::Ignored
            } else {
                Dispatch::Rejected
            }
        },
    }
}

/// List-endpoint override: an event whose route matches the list
/// pattern is dispatched to the parser and the store whatever the
/// deduper's verdict was.
pub proof fn lemma_list_override(
    env: JsonVal,
    body_len: usize,
    now: u64,
    g0: DedupModel,
    g1: DedupModel,
    s0: StoreModel,
    s1: StoreModel,
    r: Dispatch,
)
    requires
        handle_post(env, body_len, now, g0, g1, s0, s1, r),
        is_capture(env),
        payload_of(env) is Some,
        classify_spec(
            route_of(
                match payload_of(env) {
                    Some(p) => p,
                    None => JsonVal::Null,
                },
            ),
        ) == RouteClass::ListEndpoint,
    ensures
        ({
            let payload = match payload_of(env) {
                Some(p) => p,
                None => JsonVal::Null,
            };
            s1.orders == upsert_summaries_spec(
                s0.orders,
                parse_list_spec(body_of(payload)),
                ts_of(payload),
            )
        }),
{
}

} // verus!
