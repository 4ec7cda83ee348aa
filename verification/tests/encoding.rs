use order_capture::crypto::{CryptoCtx, CryptoError};
use order_capture::repo::OrderRow;
use order_capture::signing::sign_query;
use order_capture::status::{map_status, OrderStage};
use order_capture::sync_plan::{backfill_window, next_page};

#[test]
fn encrypt_then_decrypt_round_trips() {
    let ctx = CryptoCtx::new_dummy();
    let enc = ctx.encrypt(b"api-key-123").unwrap();
    assert_eq!(enc, b"YXBpLWtleS0xMjM=".to_vec());
    let dec = ctx.decrypt(&enc).unwrap();
    assert_eq!(dec, b"api-key-123".to_vec());
}

#[test]
fn decrypt_rejects_invalid_text() {
    let ctx = CryptoCtx::new_dummy();
    assert_eq!(ctx.decrypt(b"!!!not base64!!!").unwrap_err(), CryptoError::InvalidEncoding);
}

#[test]
fn signature_matches_known_hmac_vector() {
    // RFC 4231 test case 2: key "Jefe", data "what do ya want for
    // nothing?".
    let sig = sign_query(b"Jefe", b"what do ya want for nothing?");
    assert_eq!(sig, "5bdcc146bf60754e6a042426089575c75a003f089d2739839dec58b964ec3843");
}

#[test]
fn signature_depends_on_secret() {
    let q = b"tradeType=BUY&page=1";
    assert_ne!(sign_query(b"secret-a", q), sign_query(b"secret-b", q));
}

#[test]
fn status_labels_for_known_codes() {
    assert_eq!(map_status(1), "Đang chờ xử lý");
    assert_eq!(map_status(2), "Người mua đã thanh toán");
    assert_eq!(map_status(4), "Đã hoàn thành");
    assert_eq!(map_status(6), "Đã hoàn thành");
    assert_eq!(map_status(5), "Đã hủy");
    assert_eq!(map_status(7), "Code7");
    assert_eq!(map_status(0), "Code0");
    assert_eq!(map_status(-3), "Code-3");
    assert_eq!(map_status(1234567890123), "Code1234567890123");
}

#[test]
fn stage_label_renders_decimal_code() {
    assert_eq!(OrderStage::from_code(0).label(), "Code0");
    assert_eq!(OrderStage::from_code(9).label(), "Code9");
    assert_eq!(OrderStage::from_code(42).label(), "Code42");
    assert_eq!(OrderStage::from_code(255).label(), "Code255");
}

#[test]
fn order_row_derives_label_and_flag() {
    let row = OrderRow::from_columns(
        "O1".to_string(),
        "BUY".to_string(),
        "VND".to_string(),
        "USDT".to_string(),
        "10".to_string(),
        "240000".to_string(),
        "24000".to_string(),
        2,
        "Alice".to_string(),
        "Bob".to_string(),
        1,
        1700000000000,
    );
    assert_eq!(row.status_label, "Người mua đã thanh toán");
    assert!(row.has_payment_detail);
    let row2 = OrderRow::from_columns(
        "O2".to_string(),
        String::new(),
        String::new(),
        String::new(),
        String::new(),
        String::new(),
        String::new(),
        8,
        String::new(),
        String::new(),
        0,
        0,
    );
    assert_eq!(row2.status_label, "Code8");
    assert!(!row2.has_payment_detail);
}

#[test]
fn backfill_window_and_paging() {
    let (start, end) = backfill_window(1_700_000_000_000, 30);
    assert_eq!(end, 1_700_000_000_000);
    assert_eq!(end - start, 30 * 86_400_000);
    assert_eq!(next_page(1, 100), Some(2));
    assert_eq!(next_page(2, 99), None);
    assert_eq!(next_page(7, 0), None);
}
