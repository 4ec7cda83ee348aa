//! Parser for list-style responses: a batch of partial order summaries
//! at a fixed nested path, every scalar degrading to a default.
use vstd::prelude::*;

use crate::fields::{field_of_item, FieldModel};
use crate::json::{jarr_opt, jfield, jint_or, jstr_opt, jstr_or, JsonVal};

verus! {

/// One summary record of a list-style response.
#[derive(Debug, Clone)]
pub struct OrderSummaryParsed {
    pub order_number: String,
    pub trade_type: String,
    pub asset: String,
    pub fiat: String,
    pub amount_asset: String,
    pub total_fiat: String,
    pub price: String,
    pub order_status_raw: u8,
    pub create_time_ms: i64,
    pub buyer_nick: String,
    pub seller_nick: String,
    pub payment_fields: Option<Vec<PaymentField>>,
}

/// One payment-method field of a summary record.
#[derive(Debug, Clone)]
pub struct PaymentField {
    pub field_type: String,
    pub field_value: Option<String>,
}

impl View for PaymentField {
    type V = FieldModel;

    open spec fn view(&self) -> FieldModel {
        FieldModel {
            field_type: self.field_type@,
            field_value: match self.field_value {
                Some(s) => Some(s@),
                None => None,
            },
        }
    }
}

/// A summary record as plain values.
pub ghost struct SummaryModel {
    pub order_number: Seq<char>,
    pub trade_type: Seq<char>,
    pub asset: Seq<char>,
    pub fiat: Seq<char>,
    pub amount_asset: Seq<char>,
    pub total_fiat: Seq<char>,
    pub price: Seq<char>,
    pub order_status_raw: u8,
    pub create_time_ms: i64,
    pub buyer_nick: Seq<char>,
    pub seller_nick: Seq<char>,
    pub payment_fields: Option<Seq<FieldModel>>,
}

impl View for OrderSummaryParsed {
    type V = SummaryModel;

    open spec fn view(&self) -> SummaryModel {
        SummaryModel {
            order_number: self.order_number@,
            trade_type: self.trade_type@,
            asset: self.asset@,
            fiat: self.fiat@,
            amount_asset: self.amount_asset@,
            total_fiat: self.total_fiat@,
            price: self.price@,
            order_status_raw: self.order_status_raw,
            create_time_ms: self.create_time_ms,
            buyer_nick: self.buyer_nick@,
            seller_nick: self.seller_nick@,
            payment_fields: match self.payment_fields {
                Some(fs) => Some(fs@.map_values(|f: PaymentField| f@)),
                None => None,
            },
        }
    }
}

/// The payment fields of one record: those of the first payment-method
/// entry, when that entry carries a `fields` array.
pub open spec fn pay_fields_of(it: JsonVal) -> Option<Seq<FieldModel>> {
    match jarr_opt(it, "payMethods"@) {
        Some(pms) => if pms.len() > 0 {
            match jarr_opt(pms[0], "fields"@) {
                Some(fs) => Some(fs.map_values(|f: JsonVal| field_of_item(f))),
                None => None,
            }
        } else {
            None
        },
        None => None,
    }
}

/// The summary extracted from one array item, every field with its own
/// default.
pub open spec fn summary_of_item(it: JsonVal) -> SummaryModel {
    SummaryModel {
        order_number: jstr_or(it, "orderNumber"@, Seq::<char>::empty()),
        trade_type: jstr_or(it, "tradeType"@, Seq::<char>::empty()),
        asset: jstr_or(it, "asset"@, Seq::<char>::empty()),
        fiat: jstr_or(it, "fiat"@, Seq::<char>::empty()),
        amount_asset: jstr_or(it, "amount"@, Seq::<char>::empty()),
        total_fiat: jstr_or(it, "totalPrice"@, Seq::<char>::empty()),
        price: jstr_or(it, "price"@, Seq::<char>::empty()),
        order_status_raw: jint_or(it, "orderStatus"@, -1i64) as u8,
        create_time_ms: jint_or(it, "createTime"@, 0i64),
        buyer_nick: jstr_or(it, "buyerNickname"@, Seq::<char>::empty()),
        seller_nick: jstr_or(it, "sellerNickname"@, Seq::<char>::empty()),
        payment_fields: pay_fields_of(it),
    }
}

/// The array of summary items under `data.data`, or empty when the path
/// is absent or not an array.
pub open spec fn list_items(root: JsonVal) -> Seq<JsonVal> {
    match jfield(root, "data"@) {
        Some(d) => match jarr_opt(d, "data"@) {
            Some(items) => items,
            None => Seq::<JsonVal>::empty(),
        },
        None => Seq::<JsonVal>::empty(),
    }
}

/// The records of a batch: one summary per item, items without an order
/// number silently dropped.
pub open spec fn parse_items(items: Seq<JsonVal>) -> Seq<SummaryModel>
    decreases items.len(),
{
    if items.len() == 0 {
        Seq::<SummaryModel>::empty()
    } else {
        let pre = parse_items(items.drop_last());
        if jstr_or(items.last(), "orderNumber"@, Seq::<char>::empty()).len() > 0 {
            pre.push(summary_of_item(items.last()))
        } else {
            pre
        }
    }
}

/// What `parse_order_list` returns.
pub open spec fn parse_list_spec(root: JsonVal) -> Seq<SummaryModel> {
    parse_items(list_items(root))
}

/// Collects the payment fields of the first payment-method entry.
pub(crate) fn extract_pay_fields(it: &JsonVal) -> (r: Option<Vec<PaymentField>>)
    ensures
        match r {
            Some(v) => pay_fields_of(*it) == Some(v@.map_values(|f: PaymentField| f@)),
            None => pay_fields_of(*it) is None,
        },
{
    match it.arr_opt("payMethods") {
        Some(pms) => {
            if pms.len() > 0 {
                match pms[0].arr_opt("fields") {
                    Some(fs) => {
                        let n = fs.len();
                        let mut acc: Vec<PaymentField> = Vec::new();
                        let mut j: usize = 0;
                        while j < n
                            invariant
                                n == fs@.len(),
                                0 <= j <= n,
                                acc@.map_values(|f: PaymentField| f@) =~= fs@.take(
                                    j as int,
                                ).map_values(|f: JsonVal| field_of_item(f)),
                            decreases n - j,
                        {
                            let f = &fs[j];
                            acc.push(
                                PaymentField {
                                    field_type: f.str_or_empty("fieldContentType"),
                                    field_value: f.str_opt("fieldValue"),
                                },
                            );
                            proof {
                                assert(fs@.take(j + 1).drop_last() =~= fs@.take(j as int));
                                assert(fs@.take(j + 1).map_values(
                                    |f: JsonVal| field_of_item(f),
                                ) =~= fs@.take(j as int).map_values(
                                    |f: JsonVal| field_of_item(f),
                                ).push(field_of_item(fs@[j as int])));
                            }
                            j = j + 1;
                        }
                        proof {
                            assert(fs@.take(n as int) =~= fs@);
                        }
                        Some(acc)
                    },
                    None => None,
                }
            } else {
                None
            }
        },
        None => None,
    }
}

/// Extracts every summary record of a list-style response; items
/// without an order number are dropped, malformed fields degrade to
/// defaults and never abort the batch.
pub fn parse_order_list(root: &JsonVal) -> (r: Vec<OrderSummaryParsed>)
    ensures
        r@.map_values(|s: OrderSummaryParsed| s@) == parse_list_spec(*root),
{
    let mut out: Vec<OrderSummaryParsed> = Vec::new();
    let arr = match root.get("data") {
        Some(d) => match d.arr_opt("data") {
            Some(a) => a,
            None => {
                proof {
                    assert(list_items(*root) =~= Seq::<JsonVal>::empty());
                    assert(out@.map_values(|s: OrderSummaryParsed| s@) =~= parse_list_spec(
                        *root,
                    ));
                }
                return out;
            },
        },
        None => {
            proof {
                assert(list_items(*root) =~= Seq::<JsonVal>::empty());
                assert(out@.map_values(|s: OrderSummaryParsed| s@) =~= parse_list_spec(
                    *root,
                ));
            }
            return out;
        },
    };
    let n = arr.len();
    let mut i: usize = 0;
    while i < n
        invariant
            n == arr@.len(),
            0 <= i <= n,
            list_items(*root) == arr@,
            out@.map_values(|s: OrderSummaryParsed| s@) =~= parse_items(arr@.take(i as int)),
        decreases n - i,
    {
        let it = &arr[i];
        let order_number = it.str_or_empty("orderNumber");
        proof {
            assert(arr@.take(i + 1).drop_last() =~= arr@.take(i as int));
            assert(arr@.take(i + 1).last() == arr@[i as int]);
        }
        if !order_number.as_str().is_empty() {
            let payment_fields = extract_pay_fields(it);
            let rec = OrderSummaryParsed {
                order_number,
                trade_type: it.str_or_empty("tradeType"),
                asset: it.str_or_empty("asset"),
                fiat: it.str_or_empty("fiat"),
                amount_asset: it.str_or_empty("amount"),
                total_fiat: it.str_or_empty("totalPrice"),
                price: it.str_or_empty("price"),
                order_status_raw: #[verifier::truncate] (it.int_or("orderStatus", -1) as u8),
                create_time_ms: it.int_or("createTime", 0),
                buyer_nick: it.str_or_empty("buyerNickname"),
                seller_nick: it.str_or_empty("sellerNickname"),
                payment_fields,
            };
            proof {
                assert(rec@ == summary_of_item(arr@[i as int]));
            }
            out.push(rec);
            proof {
                assert(out@.map_values(|s: OrderSummaryParsed| s@) =~= parse_items(
                    arr@.take(i + 1),
                ));
            }
        }
        i = i + 1;
    }
    proof {
        assert(arr@.take(n as int) =~= arr@);
    }
    out
}

} // verus!
