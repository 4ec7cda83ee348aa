use order_capture::json::JsonVal;
use order_capture::parser_detail::parse_order_detail;
use order_capture::parser_list::parse_order_list;

fn obj(fields: Vec<(&str, JsonVal)>) -> JsonVal {
    JsonVal::Obj(fields.into_iter().map(|(k, v)| (k.to_string(), v)).collect())
}

fn s(v: &str) -> JsonVal {
    JsonVal::Str(v.to_string())
}

fn pay_methods(fields: Vec<(&str, Option<&str>)>) -> JsonVal {
    JsonVal::Arr(vec![obj(vec![(
        "fields",
        JsonVal::Arr(
            fields
                .into_iter()
                .map(|(t, v)| {
                    let mut fs = vec![("fieldContentType", s(t))];
                    if let Some(v) = v {
                        fs.push(("fieldValue", s(v)));
                    }
                    obj(fs)
                })
                .collect(),
        ),
    )])])
}

fn list_body(items: Vec<JsonVal>) -> JsonVal {
    obj(vec![("data", obj(vec![("data", JsonVal::Arr(items))]))])
}

#[test]
fn list_parses_full_item() {
    let root = list_body(vec![obj(vec![
        ("orderNumber", s("O1")),
        ("tradeType", s("BUY")),
        ("asset", s("USDT")),
        ("fiat", s("VND")),
        ("amount", s("12.5")),
        ("totalPrice", s("300000")),
        ("price", s("24000")),
        ("orderStatus", JsonVal::Int(2)),
        ("createTime", JsonVal::Int(1700000000000)),
        ("buyerNickname", s("Alice")),
        ("sellerNickname", s("Bob")),
        ("payMethods", pay_methods(vec![("bank", Some("VCB")), ("payee", Some("A. Nguyen"))])),
    ])]);
    let out = parse_order_list(&root);
    assert_eq!(out.len(), 1);
    let r = &out[0];
    assert_eq!(r.order_number, "O1");
    assert_eq!(r.trade_type, "BUY");
    assert_eq!(r.asset, "USDT");
    assert_eq!(r.fiat, "VND");
    assert_eq!(r.amount_asset, "12.5");
    assert_eq!(r.total_fiat, "300000");
    assert_eq!(r.price, "24000");
    assert_eq!(r.order_status_raw, 2);
    assert_eq!(r.create_time_ms, 1700000000000);
    assert_eq!(r.buyer_nick, "Alice");
    assert_eq!(r.seller_nick, "Bob");
    let fields = r.payment_fields.as_ref().unwrap();
    assert_eq!(fields.len(), 2);
    assert_eq!(fields[0].field_type, "bank");
    assert_eq!(fields[0].field_value.as_deref(), Some("VCB"));
    assert_eq!(fields[1].field_type, "payee");
    assert_eq!(fields[1].field_value.as_deref(), Some("A. Nguyen"));
}

#[test]
fn list_drops_items_without_order_number() {
    let root = list_body(vec![
        obj(vec![("tradeType", s("BUY"))]),
        obj(vec![("orderNumber", s("")), ("tradeType", s("SELL"))]),
        obj(vec![("orderNumber", s("O2"))]),
    ]);
    let out = parse_order_list(&root);
    assert_eq!(out.len(), 1);
    assert_eq!(out[0].order_number, "O2");
}

#[test]
fn list_malformed_fields_degrade_to_defaults() {
    let root = list_body(vec![obj(vec![
        ("orderNumber", s("O3")),
        ("tradeType", JsonVal::Int(7)),
        ("orderStatus", s("not-a-number")),
        ("createTime", JsonVal::Null),
    ])]);
    let out = parse_order_list(&root);
    assert_eq!(out.len(), 1);
    let r = &out[0];
    assert_eq!(r.trade_type, "");
    // The status default is -1, truncated into a byte.
    assert_eq!(r.order_status_raw, 255);
    assert_eq!(r.create_time_ms, 0);
    assert!(r.payment_fields.is_none());
}

#[test]
fn list_missing_path_yields_empty_batch() {
    assert!(parse_order_list(&obj(vec![])).is_empty());
    assert!(parse_order_list(&obj(vec![("data", JsonVal::Null)])).is_empty());
    assert!(parse_order_list(&obj(vec![("data", obj(vec![("data", s("nope"))]))])).is_empty());
    assert!(parse_order_list(&list_body(vec![])).is_empty());
}

#[test]
fn list_takes_only_first_pay_method() {
    let two_methods = JsonVal::Arr(vec![
        obj(vec![(
            "fields",
            JsonVal::Arr(vec![obj(vec![
                ("fieldContentType", s("bank")),
                ("fieldValue", s("First")),
            ])]),
        )]),
        obj(vec![(
            "fields",
            JsonVal::Arr(vec![obj(vec![
                ("fieldContentType", s("bank")),
                ("fieldValue", s("Second")),
            ])]),
        )]),
    ]);
    let root = list_body(vec![obj(vec![
        ("orderNumber", s("O4")),
        ("payMethods", two_methods),
    ])]);
    let out = parse_order_list(&root);
    let fields = out[0].payment_fields.as_ref().unwrap();
    assert_eq!(fields.len(), 1);
    assert_eq!(fields[0].field_value.as_deref(), Some("First"));
}

fn detail_body(inner: Vec<(&str, JsonVal)>) -> JsonVal {
    obj(vec![("data", obj(vec![("data", obj(inner))]))])
}

#[test]
fn detail_parses_record() {
    let root = detail_body(vec![
        ("orderNumber", s("O9")),
        ("orderStatus", JsonVal::Int(4)),
        ("remark", s("please pay fast")),
        ("expectedPayTime", JsonVal::Int(1700000001000)),
        ("payMethods", pay_methods(vec![("bank", Some("VCB")), ("qr_code", None)])),
    ]);
    let d = parse_order_detail(&root).unwrap();
    assert_eq!(d.order_number, "O9");
    assert_eq!(d.order_status_raw, 4);
    assert_eq!(d.remark.as_deref(), Some("please pay fast"));
    assert_eq!(d.expected_pay_time_ms, Some(1700000001000));
    assert_eq!(d.payment_fields.len(), 2);
    assert_eq!(d.payment_fields[0].field_type, "bank");
    assert_eq!(d.payment_fields[0].field_value.as_deref(), Some("VCB"));
    assert_eq!(d.payment_fields[1].field_type, "qr_code");
    assert!(d.payment_fields[1].field_value.is_none());
}

#[test]
fn detail_without_order_number_is_none() {
    assert!(parse_order_detail(&detail_body(vec![("orderStatus", JsonVal::Int(1))])).is_none());
    assert!(parse_order_detail(&detail_body(vec![("orderNumber", JsonVal::Int(5))])).is_none());
    assert!(parse_order_detail(&obj(vec![])).is_none());
}

#[test]
fn detail_defaults_for_absent_fields() {
    let root = detail_body(vec![("orderNumber", s("O10"))]);
    let d = parse_order_detail(&root).unwrap();
    assert_eq!(d.order_status_raw, 255);
    assert!(d.remark.is_none());
    assert!(d.expected_pay_time_ms.is_none());
    assert!(d.payment_fields.is_empty());
}
