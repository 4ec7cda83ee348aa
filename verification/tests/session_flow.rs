use order_capture::dedup::Deduper;
use order_capture::json::JsonVal;
use order_capture::session::{classify, handle_message, Dispatch, RouteClass};
use order_capture::store::OrderStore;

fn obj(fields: Vec<(&str, JsonVal)>) -> JsonVal {
    JsonVal::Obj(fields.into_iter().map(|(k, v)| (k.to_string(), v)).collect())
}

fn s(v: &str) -> JsonVal {
    JsonVal::Str(v.to_string())
}

fn envelope(kind: &str, url: &str, status: i64, ts: i64, body: JsonVal) -> JsonVal {
    obj(vec![
        ("kind", s(kind)),
        (
            "payload",
            obj(vec![
                ("url", s(url)),
                ("status", JsonVal::Int(status)),
                ("ts", JsonVal::Int(ts)),
                ("data", body),
            ]),
        ),
    ])
}

fn list_event(ts: i64) -> JsonVal {
    let item = obj(vec![
        ("orderNumber", s("O1")),
        ("orderStatus", JsonVal::Int(1)),
        ("buyerNickname", s("Alice")),
    ]);
    let body = obj(vec![("data", obj(vec![("data", JsonVal::Arr(vec![item]))]))]);
    envelope("NET_CAPTURE", "https://host/bapi/c2c/order/list", 200, ts, body)
}

fn detail_event(ts: i64) -> JsonVal {
    let field = obj(vec![("fieldContentType", s("bank")), ("fieldValue", s("VCB"))]);
    let record = obj(vec![
        ("orderNumber", s("O1")),
        ("orderStatus", JsonVal::Int(2)),
        ("remark", s("please pay fast")),
        ("payMethods", JsonVal::Arr(vec![obj(vec![("fields", JsonVal::Arr(vec![field]))])])),
    ]);
    let body = obj(vec![("data", obj(vec![("data", record)]))]);
    envelope("NET_CAPTURE", "https://host/bapi/c2c/order/detail", 200, ts, body)
}

#[test]
fn classification_by_substring_priority() {
    assert_eq!(classify("https://h/bapi/c2c/order/list?page=1"), RouteClass::ListEndpoint);
    assert_eq!(classify("https://h/bapi/c2c/order/detail?x=1"), RouteClass::DetailEndpoint);
    assert_eq!(classify("https://h/bapi/c2c/order/status"), RouteClass::QuickStatus);
    assert_eq!(classify("https://h/bapi/c2c/something"), RouteClass::Other);
}

#[test]
fn end_to_end_list_then_detail() {
    let mut gate = Deduper::new(60_000, 64);
    let mut store = OrderStore::new();
    store.set_my_nickname("Alice".to_string());

    let r1 = handle_message(&list_event(100), 120, &mut gate, &mut store, 1_000);
    assert_eq!(r1, Dispatch::MergedSummaries { count: 1, admitted: true });
    {
        let views = store.list();
        assert_eq!(views.len(), 1);
        assert_eq!(views[0].order_number, "O1");
        assert_eq!(views[0].stage_label, "Code1");
        assert_eq!(views[0].side_role, "YOU_BUY");
    }

    let r2 = handle_message(&detail_event(200), 340, &mut gate, &mut store, 2_000);
    assert_eq!(r2, Dispatch::MergedDetail { admitted: true });
    let views = store.list();
    assert_eq!(views.len(), 1);
    assert_eq!(views[0].order_number, "O1");
    assert_eq!(views[0].stage_label, "Code2");
    assert_eq!(views[0].bank_name, "VCB");
    assert_eq!(views[0].side_role, "YOU_BUY");
    assert_eq!(views[0].last_update_ts, 200);
}

#[test]
fn duplicate_detail_suppressed_by_gate() {
    let mut gate = Deduper::new(60_000, 64);
    let mut store = OrderStore::new();

    let r1 = handle_message(&detail_event(200), 340, &mut gate, &mut store, 1_000);
    assert_eq!(r1, Dispatch::MergedDetail { admitted: true });
    let before = store.list();

    // The identical event inside the window: the deduper reports the
    // rejection and the store is untouched.
    let r2 = handle_message(&detail_event(200), 340, &mut gate, &mut store, 2_000);
    assert_eq!(r2, Dispatch::Rejected);
    let after = store.list();
    assert_eq!(before.len(), after.len());
    assert_eq!(before[0].stage_label, after[0].stage_label);
    assert_eq!(before[0].bank_name, after[0].bank_name);
    assert_eq!(before[0].last_update_ts, after[0].last_update_ts);
}

#[test]
fn list_route_overrides_gate_rejection() {
    let mut gate = Deduper::new(60_000, 64);
    let mut store = OrderStore::new();

    let r1 = handle_message(&list_event(100), 120, &mut gate, &mut store, 1_000);
    assert_eq!(r1, Dispatch::MergedSummaries { count: 1, admitted: true });

    // The identical list event is a duplicate, yet still dispatched.
    let r2 = handle_message(&list_event(100), 120, &mut gate, &mut store, 2_000);
    assert_eq!(r2, Dispatch::MergedSummaries { count: 1, admitted: false });
    assert_eq!(store.list()[0].last_update_ts, 100);
}

#[test]
fn non_capture_kind_is_ignored() {
    let mut gate = Deduper::new(60_000, 64);
    let mut store = OrderStore::new();
    let env = envelope("CONSOLE_LOG", "https://host/bapi/c2c/order/list", 200, 1, obj(vec![]));
    assert_eq!(handle_message(&env, 10, &mut gate, &mut store, 1_000), Dispatch::Ignored);
    assert!(store.list().is_empty());
    // The deduper was not consulted: the same fingerprint is still fresh.
    let fp = Deduper::make_fp("https://host/bapi/c2c/order/list", 200, 10);
    assert!(gate.admit_at(fp.as_str(), 1_001));
}

#[test]
fn missing_payload_is_ignored() {
    let mut gate = Deduper::new(60_000, 64);
    let mut store = OrderStore::new();
    let env = obj(vec![("kind", s("NET_CAPTURE"))]);
    assert_eq!(handle_message(&env, 0, &mut gate, &mut store, 1_000), Dispatch::Ignored);
}

#[test]
fn unmatched_route_is_ignored_but_gated() {
    let mut gate = Deduper::new(60_000, 64);
    let mut store = OrderStore::new();
    let env = || envelope("NET_CAPTURE", "https://host/other", 200, 1, obj(vec![]));
    assert_eq!(handle_message(&env(), 5, &mut gate, &mut store, 1_000), Dispatch::Ignored);
    assert_eq!(handle_message(&env(), 5, &mut gate, &mut store, 1_001), Dispatch::Rejected);
    assert!(store.list().is_empty());
}

#[test]
fn quick_status_observes_without_mutation() {
    let mut gate = Deduper::new(60_000, 64);
    let mut store = OrderStore::new();
    let body = obj(vec![(
        "data",
        obj(vec![("data", obj(vec![("orderStatus", JsonVal::Int(4))]))]),
    )]);
    let env = envelope("NET_CAPTURE", "https://host/bapi/c2c/order/status", 200, 1, body);
    assert_eq!(
        handle_message(&env, 33, &mut gate, &mut store, 1_000),
        Dispatch::ObservedStatus { code: 4 }
    );
    assert!(store.list().is_empty());
}

#[test]
fn detail_without_record_reports_no_record() {
    let mut gate = Deduper::new(60_000, 64);
    let mut store = OrderStore::new();
    let body = obj(vec![("data", obj(vec![("data", obj(vec![]))]))]);
    let env = envelope("NET_CAPTURE", "https://host/bapi/c2c/order/detail", 200, 1, body);
    assert_eq!(
        handle_message(&env, 21, &mut gate, &mut store, 1_000),
        Dispatch::NoDetailRecord { admitted: true }
    );
    assert!(store.list().is_empty());
}

#[test]
fn body_falls_back_to_whole_payload() {
    let mut gate = Deduper::new(60_000, 64);
    let mut store = OrderStore::new();
    // No `data` field: the payload itself is the body, which holds no
    // list items, so the batch is empty.
    let env = obj(vec![
        ("kind", s("NET_CAPTURE")),
        ("payload", obj(vec![("url", s("https://h/order/list"))])),
    ]);
    assert_eq!(
        handle_message(&env, 2, &mut gate, &mut store, 1_000),
        Dispatch::MergedSummaries { count: 0, admitted: true }
    );
}
