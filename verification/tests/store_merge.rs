use order_capture::parser_detail::{OrderDetailParsed, PaymentField as DetailField};
use order_capture::parser_list::{OrderSummaryParsed, PaymentField as ListField};
use order_capture::store::OrderStore;

fn summary(order_number: &str, status: u8, buyer: &str) -> OrderSummaryParsed {
    OrderSummaryParsed {
        order_number: order_number.to_string(),
        trade_type: "BUY".to_string(),
        asset: "USDT".to_string(),
        fiat: "VND".to_string(),
        amount_asset: "10".to_string(),
        total_fiat: "240000".to_string(),
        price: "24000".to_string(),
        order_status_raw: status,
        create_time_ms: 1,
        buyer_nick: buyer.to_string(),
        seller_nick: "Bob".to_string(),
        payment_fields: None,
    }
}

fn detail(order_number: &str, status: u8, fields: Vec<(&str, Option<&str>)>) -> OrderDetailParsed {
    OrderDetailParsed {
        order_number: order_number.to_string(),
        order_status_raw: status,
        payment_fields: fields
            .into_iter()
            .map(|(t, v)| DetailField {
                field_type: t.to_string(),
                field_value: v.map(|x| x.to_string()),
            })
            .collect(),
        remark: None,
        expected_pay_time_ms: None,
    }
}

#[test]
fn merge_keeps_payment_field_absent_from_update() {
    let mut store = OrderStore::new();
    store.upsert_detail(detail("O1", 1, vec![("bank", Some("X"))]), 10);
    // A summary without payment fields leaves bank_name alone.
    store.upsert_summaries(vec![summary("O1", 2, "Alice")], 20);
    let views = store.list();
    assert_eq!(views.len(), 1);
    assert_eq!(views[0].bank_name, "X");
    assert_eq!(views[0].stage_label, "Code2");
    assert_eq!(views[0].last_update_ts, 20);
    // A detail that carries the field overwrites it.
    store.upsert_detail(detail("O1", 2, vec![("bank", Some("Y"))]), 30);
    let views = store.list();
    assert_eq!(views[0].bank_name, "Y");
}

#[test]
fn merge_ignores_unknown_field_types_and_valueless_fields() {
    let mut store = OrderStore::new();
    store.upsert_detail(
        detail("O1", 1, vec![("bank", Some("X")), ("color", Some("blue")), ("bank", None)]),
        10,
    );
    let views = store.list();
    // The valueless second bank entry does not clear the first.
    assert_eq!(views[0].bank_name, "X");
}

#[test]
fn resubmitting_same_detail_is_idempotent() {
    let mut store = OrderStore::new();
    let mk = || {
        let mut d = detail("O1", 3, vec![("payee", Some("A")), ("pay_account", Some("123"))]);
        d.remark = Some("soon".to_string());
        d.expected_pay_time_ms = Some(99);
        d
    };
    store.upsert_detail(mk(), 50);
    let once = store.list();
    store.upsert_detail(mk(), 50);
    let twice = store.list();
    assert_eq!(once.len(), 1);
    assert_eq!(twice.len(), 1);
    assert_eq!(once[0].order_number, twice[0].order_number);
    assert_eq!(once[0].stage_label, twice[0].stage_label);
    assert_eq!(once[0].account_name, twice[0].account_name);
    assert_eq!(once[0].account_no, twice[0].account_no);
    assert_eq!(once[0].bank_name, twice[0].bank_name);
    assert_eq!(once[0].last_update_ts, twice[0].last_update_ts);
}

#[test]
fn role_derivation_from_nickname() {
    let mut store = OrderStore::new();
    store.upsert_summaries(vec![summary("O1", 1, "Alice")], 10);
    // Nickname unset: role unknown.
    assert_eq!(store.list()[0].side_role, "UNKNOWN");
    store.set_my_nickname("Alice".to_string());
    assert_eq!(store.list()[0].side_role, "YOU_BUY");
    store.set_my_nickname("Bob".to_string());
    assert_eq!(store.list()[0].side_role, "YOU_SELL");
    store.set_my_nickname("Carol".to_string());
    assert_eq!(store.list()[0].side_role, "OTHER");
}

#[test]
fn summary_overwrites_status_amounts_and_keeps_identity_fields() {
    let mut store = OrderStore::new();
    store.upsert_summaries(vec![summary("O1", 1, "Alice")], 10);
    let mut s2 = summary("O1", 5, "Mallory");
    s2.amount_asset = "11".to_string();
    s2.total_fiat = "264000".to_string();
    s2.price = "24001".to_string();
    store.upsert_summaries(vec![s2], 20);
    let v = &store.list()[0];
    assert_eq!(v.stage_label, "Code5");
    assert_eq!(v.amount_asset, "11");
    assert_eq!(v.total_fiat, "264000");
    assert_eq!(v.price, "24001");
    assert_eq!(v.last_update_ts, 20);
}

#[test]
fn detail_first_sighting_creates_entity_with_empty_display_fields() {
    let mut store = OrderStore::new();
    store.upsert_detail(detail("O7", 2, vec![]), 10);
    let v = &store.list()[0];
    assert_eq!(v.order_number, "O7");
    assert_eq!(v.trade_type, "");
    assert_eq!(v.asset, "");
    assert_eq!(v.stage_label, "Code2");
    assert_eq!(v.account_name, "");
    assert_eq!(v.account_no, "");
    assert_eq!(v.bank_name, "");
}

#[test]
fn quick_update_touches_only_existing_entities() {
    let mut store = OrderStore::new();
    store.upsert_summaries(vec![summary("O1", 1, "Alice")], 10);
    store.quick_update_status("O1", 9, 30);
    assert_eq!(store.list()[0].stage_label, "Code9");
    assert_eq!(store.list()[0].last_update_ts, 30);
    store.quick_update_status("O404", 9, 30);
    assert_eq!(store.list().len(), 1);
}

#[test]
fn batch_processes_every_record() {
    let mut store = OrderStore::new();
    store.upsert_summaries(
        vec![summary("O1", 1, "Alice"), summary("O2", 2, "Bob"), summary("O1", 3, "Alice")],
        10,
    );
    let views = store.list();
    assert_eq!(views.len(), 2);
    assert_eq!(views[0].order_number, "O1");
    assert_eq!(views[0].stage_label, "Code3");
    assert_eq!(views[1].order_number, "O2");
}

#[test]
fn list_payment_fields_apply_through_summaries() {
    let mut store = OrderStore::new();
    let mut s = summary("O1", 1, "Alice");
    s.payment_fields = Some(vec![
        ListField { field_type: "payee".to_string(), field_value: Some("A. N.".to_string()) },
        ListField { field_type: "pay_account".to_string(), field_value: Some("007".to_string()) },
    ]);
    store.upsert_summaries(vec![s], 10);
    let v = &store.list()[0];
    assert_eq!(v.account_name, "A. N.");
    assert_eq!(v.account_no, "007");
}
