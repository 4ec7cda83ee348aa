//! Parser for detail-style responses: one full order record at a fixed
//! nested path, produced only when an order number is present.
use vstd::prelude::*;

use crate::fields::{field_of_item, FieldModel};
use crate::json::{jarr_opt, jfield, jint_opt, jint_or, jstr_opt, jstr_or, JsonVal};

verus! {

/// The one record of a detail-style response.
#[derive(Debug, Clone)]
pub struct OrderDetailParsed {
    pub order_number: String,
    pub order_status_raw: u8,
    pub payment_fields: Vec<PaymentField>,
    pub remark: Option<String>,
    pub expected_pay_time_ms: Option<i64>,
}

/// One payment-method field of a detail record.
#[derive(Debug, Clone)]
pub struct PaymentField {
    pub field_type: String,
    pub field_value: Option<String>,
}

impl View for PaymentField {
    type V = FieldModel;

    open spec fn view(&self) -> FieldModel {
        FieldModel {
            field_type: self.field_type@,
            field_value: match self.field_value {
                Some(s) => Some(s@),
                None => None,
            },
        }
    }
}

/// A detail record as plain values.
pub ghost struct DetailModel {
    pub order_number: Seq<char>,
    pub order_status_raw: u8,
    pub payment_fields: Seq<FieldModel>,
    pub remark: Option<Seq<char>>,
    pub expected_pay_time_ms: Option<i64>,
}

impl View for OrderDetailParsed {
    type V = DetailModel;

    open spec fn view(&self) -> DetailModel {
        DetailModel {
            order_number: self.order_number@,
            order_status_raw: self.order_status_raw,
            payment_fields: self.payment_fields@.map_values(|f: PaymentField| f@),
            remark: match self.remark {
                Some(s) => Some(s@),
                None => None,
            },
            expected_pay_time_ms: self.expected_pay_time_ms,
        }
    }
}

/// The record object under `data.data`, when the path is present.
pub open spec fn detail_data(root: JsonVal) -> Option<JsonVal> {
    match jfield(root, "data"@) {
        Some(d) => jfield(d, "data"@),
        None => None,
    }
}

/// The payment fields of the record: those of the first payment-method
/// entry's `fields` array, or none.
pub open spec fn detail_fields_of(data: JsonVal) -> Seq<FieldModel> {
    match jarr_opt(data, "payMethods"@) {
        Some(pms) => if pms.len() > 0 {
            match jarr_opt(pms[0], "fields"@) {
                Some(fs) => fs.map_values(|f: JsonVal| field_of_item(f)),
                None => Seq::<FieldModel>::empty(),
            }
        } else {
            Seq::<FieldModel>::empty()
        },
        None => Seq::<FieldModel>::empty(),
    }
}

/// What `parse_order_detail` returns: a record exactly when the path
/// holds an object with a string order number.
pub open spec fn parse_detail_spec(root: JsonVal) -> Option<DetailModel> {
    match detail_data(root) {
        Some(data) => match jstr_opt(data, "orderNumber"@) {
            Some(on) => Some(
                DetailModel {
                    order_number: on,
                    order_status_raw: jint_or(data, "orderStatus"@, -1i64) as u8,
                    payment_fields: detail_fields_of(data),
                    remark: jstr_opt(data, "remark"@),
                    expected_pay_time_ms: jint_opt(data, "expectedPayTime"@),
                },
            ),
            None => None,
        },
        None => None,
    }
}

/// Extracts the one record of a detail-style response, or nothing when
/// the order number is absent; malformed fields degrade to defaults.
pub fn parse_order_detail(root: &JsonVal) -> (r: Option<OrderDetailParsed>)
    ensures
        match r {
            Some(d) => parse_detail_spec(*root) == Some(d@),
            None => parse_detail_spec(*root) is None,
        },
{
    let data = match root.get("data") {
        Some(d) => match d.get("data") {
            Some(x) => x,
            None => {
                return None;
            },
        },
        None => {
            return None;
        },
    };
    let order_number = match data.str_opt("orderNumber") {
        Some(on) => on,
        None => {
            return None;
        },
    };
    let payment_fields = extract_detail_fields(data);
    let d = OrderDetailParsed {
        order_number,
        order_status_raw: #[verifier::truncate] (data.int_or("orderStatus", -1) as u8),
        payment_fields,
        remark: data.str_opt("remark"),
        expected_pay_time_ms: data.int_opt("expectedPayTime"),
    };
    proof {
        assert(parse_detail_spec(*root) == Some(d@));
    }
    Some(d)
}

/// Collects the payment fields of the first payment-method entry.
fn extract_detail_fields(data: &JsonVal) -> (r: Vec<PaymentField>)
    ensures
        r@.map_values(|f: PaymentField| f@) == detail_fields_of(*data),
{
    let mut acc: Vec<PaymentField> = Vec::new();
    match data.arr_opt("payMethods") {
        Some(pms) => {
            if pms.len() > 0 {
                match pms[0].arr_opt("fields") {
                    Some(fs) => {
                        let n = fs.len();
                        let mut j: usize = 0;
                        while j < n
                            invariant
                                n == fs@.len(),
                                0 <= j <= n,
                                acc@.map_values(|f: PaymentField| f@) =~= fs@.take(
                                    j as int,
                                ).map_values(|f: JsonVal| field_of_item(f)),
                            decreases n - j,
                        {
                            let f = &fs[j];
                            acc.push(
                                PaymentField {
                                    field_type: f.str_or_empty("fieldContentType"),
                                    field_value: f.str_opt("fieldValue"),
                                },
                            );
                            proof {
                                assert(fs@.take(j + 1).drop_last() =~= fs@.take(j as int));
                                assert(fs@.take(j + 1).map_values(
                                    |f: JsonVal| field_of_item(f),
                                ) =~= fs@.take(j as int).map_values(
                                    |f: JsonVal| field_of_item(f),
                                ).push(field_of_item(fs@[j as int])));
                            }
                            j = j + 1;
                        }
                        proof {
                            assert(fs@.take(n as int) =~= fs@);
                        }
                    },
                    None => {},
                }
            }
        },
        None => {},
    }
    proof {
        assert(acc@.map_values(|f: PaymentField| f@) =~= detail_fields_of(*data));
    }
    acc
}

} // verus!
