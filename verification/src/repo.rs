//! The row shape served to the consumer from persisted orders, and the
//! pure assembly of one row from its stored columns.
use vstd::prelude::*;

use crate::status::{map_status, map_status_spec};

verus! {

/// One persisted order row, with its derived display label.
#[derive(Debug, Clone)]
pub struct OrderRow {
    pub order_number: String,
    pub trade_type: String,
    pub fiat: String,
    pub asset: String,
    pub amount_asset: String,
    pub total_fiat: String,
    pub price: String,
    pub status_code: i64,
    pub status_label: String,
    pub buyer_nickname: String,
    pub seller_nickname: String,
    pub has_payment_detail: bool,
    pub last_api_sync_ts: i64,
}

impl OrderRow {
    /// Assembles one row from its stored columns: the label derives
    /// from the status code, and the payment-detail flag from the
    /// stored marker being exactly one.
    pub fn from_columns(
        order_number: String,
        trade_type: String,
        fiat: String,
        asset: String,
        amount_asset: String,
        total_fiat: String,
        price: String,
        status_code: i64,
        buyer_nickname: String,
        seller_nickname: String,
        has_payment_detail_flag: i64,
        last_api_sync_ts: i64,
    ) -> (r: OrderRow)
        ensures
            r.order_number == order_number,
            r.trade_type == trade_type,
            r.fiat == fiat,
            r.asset == asset,
            r.amount_asset == amount_asset,
            r.total_fiat == total_fiat,
            r.price == price,
            r.status_code == status_code,
            r.status_label@ == map_status_spec(status_code as int),
            r.buyer_nickname == buyer_nickname,
            r.seller_nickname == seller_nickname,
            r.has_payment_detail == (has_payment_detail_flag == 1),
            r.last_api_sync_ts == last_api_sync_ts,
    {
        let status_label = map_status(status_code);
        OrderRow {
            order_number,
            trade_type,
            fiat,
            asset,
            amount_asset,
            total_fiat,
            price,
            status_code,
            status_label,
            buyer_nickname,
            seller_nickname,
            has_payment_detail: has_payment_detail_flag == 1,
            last_api_sync_ts,
        }
    }
}

} // verus!
