//! The merge laws of the store: payment fields are additive and
//! overwrite-only, detail merges are idempotent, and the side role
//! derives from the nickname alone.
use vstd::prelude::*;

use crate::fields::FieldModel;
use crate::parser_detail::DetailModel;
use crate::parser_list::SummaryModel;
use crate::status::OrderStage;
use crate::store::{
    apply_fields, apply_one_field, find_order, lemma_find_order, merge_detail, merge_summary,
    order_of_detail, order_of_summary, project, store_wf, upsert_detail_spec, upsert_one_summary,
    upsert_summaries_spec, OrderModel,
};

verus! {

/// The value of the last field of type `ty` that carries one, if any.
pub open spec fn last_set(fs: Seq<FieldModel>, ty: Seq<char>) -> Option<Seq<char>>
    decreases fs.len(),
{
    if fs.len() == 0 {
        None
    } else if fs.last().field_type == ty && fs.last().field_value is Some {
        fs.last().field_value
    } else {
        last_set(fs.drop_last(), ty)
    }
}

pub open spec fn or_default(v: Option<Seq<char>>, dflt: Option<Seq<char>>) -> Option<Seq<char>> {
    match v {
        Some(x) => Some(x),
        None => dflt,
    }
}

/// What a run of payment fields does to an entity: each payment
/// sub-field takes the last value supplied for its type, or keeps its
/// old value; every other field is untouched.
pub proof fn lemma_apply_fields_char(o: OrderModel, fs: Seq<FieldModel>)
    ensures
        apply_fields(o, fs).account_name == or_default(last_set(fs, "payee"@), o.account_name),
        apply_fields(o, fs).account_no == or_default(last_set(fs, "pay_account"@), o.account_no),
        apply_fields(o, fs).bank_name == or_default(last_set(fs, "bank"@), o.bank_name),
        apply_fields(o, fs).sub_bank == or_default(last_set(fs, "sub_bank"@), o.sub_bank),
        apply_fields(o, fs).qr_code == or_default(last_set(fs, "qr_code"@), o.qr_code),
        apply_fields(o, fs).order_number == o.order_number,
        apply_fields(o, fs).trade_type == o.trade_type,
        apply_fields(o, fs).asset == o.asset,
        apply_fields(o, fs).fiat == o.fiat,
        apply_fields(o, fs).amount_asset == o.amount_asset,
        apply_fields(o, fs).total_fiat == o.total_fiat,
        apply_fields(o, fs).price == o.price,
        apply_fields(o, fs).stage == o.stage,
        apply_fields(o, fs).create_time_ms == o.create_time_ms,
        apply_fields(o, fs).buyer_nick == o.buyer_nick,
        apply_fields(o, fs).seller_nick == o.seller_nick,
        apply_fields(o, fs).remark == o.remark,
        apply_fields(o, fs).expected_pay_time_ms == o.expected_pay_time_ms,
        apply_fields(o, fs).last_update_ts == o.last_update_ts,
    decreases fs.len(),
{
    reveal_strlit("payee");
    reveal_strlit("pay_account");
    reveal_strlit("bank");
    reveal_strlit("sub_bank");
    reveal_strlit("qr_code");
    assert("payee"@.len() == 5 && "pay_account"@.len() == 11 && "bank"@.len() == 4
        && "sub_bank"@.len() == 8 && "qr_code"@.len() == 7);
    if fs.len() > 0 {
        lemma_apply_fields_char(o, fs.drop_last());
        let p = apply_fields(o, fs.drop_last());
        let l = fs.last();
        assert(apply_fields(o, fs) == apply_one_field(p, l));
        match l.field_value {
            Some(v) => {
                if l.field_type == "payee"@ {
                    assert(apply_one_field(p, l) == OrderModel { account_name: Some(v), ..p });
                } else if l.field_type == "pay_account"@ {
                    assert(apply_one_field(p, l) == OrderModel { account_no: Some(v), ..p });
                } else if l.field_type == "bank"@ {
                    assert(apply_one_field(p, l) == OrderModel { bank_name: Some(v), ..p });
                } else if l.field_type == "sub_bank"@ {
                    assert(apply_one_field(p, l) == OrderModel { sub_bank: Some(v), ..p });
                } else if l.field_type == "qr_code"@ {
                    assert(apply_one_field(p, l) == OrderModel { qr_code: Some(v), ..p });
                } else {
                    assert(apply_one_field(p, l) == p);
                }
            },
            None => {
                assert(apply_one_field(p, l) == p);
            },
        }
    }
}

/// A run with no value-carrying field of type `ty` supplies nothing
/// for it.
pub proof fn lemma_absent_type_sets_nothing(fs: Seq<FieldModel>, ty: Seq<char>)
    requires
        forall|i: int|
            0 <= i < fs.len() ==> !((#[trigger] fs[i]).field_type == ty
                && fs[i].field_value is Some),
    ensures
        last_set(fs, ty) is None,
    decreases fs.len(),
{
    if fs.len() > 0 {
        assert(fs.last() == fs[fs.len() - 1]);
        lemma_absent_type_sets_nothing(fs.drop_last(), ty);
    }
}

/// Merge monotonicity, keeping half: a summary update without a
/// value-carrying `bank` field leaves `bank_name` unchanged.
pub proof fn lemma_summary_keeps_bank(o: OrderModel, s: SummaryModel, ts: i64)
    requires
        match s.payment_fields {
            Some(fs) => forall|i: int|
                0 <= i < fs.len() ==> !((#[trigger] fs[i]).field_type == "bank"@
                    && fs[i].field_value is Some),
            None => true,
        },
    ensures
        merge_summary(o, s, ts).bank_name == o.bank_name,
{
    match s.payment_fields {
        Some(fs) => {
            let base = OrderModel {
                stage: OrderStage::Code(s.order_status_raw),
                amount_asset: s.amount_asset,
                total_fiat: s.total_fiat,
                price: s.price,
                last_update_ts: ts,
                ..o
            };
            lemma_absent_type_sets_nothing(fs, "bank"@);
            lemma_apply_fields_char(base, fs);
        },
        None => {},
    }
}

/// Merge monotonicity, overwriting half: a detail update whose last
/// value-carrying `bank` field holds `v` sets `bank_name` to `v`.
pub proof fn lemma_detail_overwrites_bank(o: OrderModel, d: DetailModel, ts: i64)
    requires
        last_set(d.payment_fields, "bank"@) is Some,
    ensures
        merge_detail(o, d, ts).bank_name == last_set(d.payment_fields, "bank"@),
{
    let base = OrderModel {
        stage: OrderStage::Code(d.order_status_raw),
        remark: d.remark,
        expected_pay_time_ms: d.expected_pay_time_ms,
        last_update_ts: ts,
        ..o
    };
    lemma_apply_fields_char(base, d.payment_fields);
}

/// Applying the same run of payment fields twice equals applying it
/// once.
pub proof fn lemma_apply_fields_idempotent(o: OrderModel, fs: Seq<FieldModel>)
    ensures
        apply_fields(apply_fields(o, fs), fs) == apply_fields(o, fs),
{
    lemma_apply_fields_char(o, fs);
    lemma_apply_fields_char(apply_fields(o, fs), fs);
}

/// Merging the same detail twice into one entity equals merging it
/// once.
pub proof fn lemma_merge_detail_idempotent(o: OrderModel, d: DetailModel, ts: i64)
    ensures
        merge_detail(merge_detail(o, d, ts), d, ts) == merge_detail(o, d, ts),
{
    let m = merge_detail(o, d, ts);
    lemma_apply_fields_char(
        OrderModel {
            stage: OrderStage::Code(d.order_status_raw),
            remark: d.remark,
            expected_pay_time_ms: d.expected_pay_time_ms,
            last_update_ts: ts,
            ..o
        },
        d.payment_fields,
    );
    lemma_apply_fields_char(
        OrderModel {
            stage: OrderStage::Code(d.order_status_raw),
            remark: d.remark,
            expected_pay_time_ms: d.expected_pay_time_ms,
            last_update_ts: ts,
            ..m
        },
        d.payment_fields,
    );
}

/// Two collections whose entities carry the same order numbers place
/// any order number at the same index.
pub proof fn lemma_find_same_numbers(a: Seq<OrderModel>, b: Seq<OrderModel>, on: Seq<char>)
    requires
        a.len() == b.len(),
        forall|k: int|
            0 <= k < a.len() ==> (#[trigger] a[k]).order_number == (#[trigger] b[k]).order_number,
    ensures
        find_order(a, on) == find_order(b, on),
    decreases a.len(),
{
    if a.len() > 0 && a[0].order_number != on {
        assert(forall|k: int|
            0 <= k < a.drop_first().len() ==> (#[trigger] a.drop_first()[k]).order_number == (
            #[trigger] b.drop_first()[k]).order_number);
        lemma_find_same_numbers(a.drop_first(), b.drop_first(), on);
    }
}

/// Idempotence: re-submitting the exact same detail record with the
/// same timestamp leaves the store exactly as one submission left it.
pub proof fn lemma_detail_idempotent(orders: Seq<OrderModel>, d: DetailModel, ts: i64)
    ensures
        upsert_detail_spec(upsert_detail_spec(orders, d, ts), d, ts) == upsert_detail_spec(
            orders,
            d,
            ts,
        ),
{
    let on = d.order_number;
    let i = find_order(orders, on);
    let o1 = upsert_detail_spec(orders, d, ts);
    lemma_find_order(orders, on);
    if i >= 0 {
        let m = merge_detail(orders[i], d, ts);
        lemma_apply_fields_char(
            OrderModel {
                stage: OrderStage::Code(d.order_status_raw),
                remark: d.remark,
                expected_pay_time_ms: d.expected_pay_time_ms,
                last_update_ts: ts,
                ..orders[i]
            },
            d.payment_fields,
        );
        assert(m.order_number == orders[i].order_number);
        lemma_find_same_numbers(o1, orders, on);
        lemma_merge_detail_idempotent(orders[i], d, ts);
        assert(o1.update(i, merge_detail(o1[i], d, ts)) =~= o1);
    } else {
        let m = merge_detail(order_of_detail(d, ts), d, ts);
        lemma_apply_fields_char(
            OrderModel {
                stage: OrderStage::Code(d.order_status_raw),
                remark: d.remark,
                expected_pay_time_ms: d.expected_pay_time_ms,
                last_update_ts: ts,
                ..order_of_detail(d, ts)
            },
            d.payment_fields,
        );
        assert(m.order_number == on);
        let i2 = find_order(o1, on);
        lemma_find_order(o1, on);
        assert(o1[orders.len() as int].order_number == on);
        assert(i2 != -1);
        assert(forall|k: int|
            0 <= k < orders.len() ==> (#[trigger] o1[k]).order_number == orders[k].order_number);
        assert(i2 == orders.len());
        lemma_merge_detail_idempotent(order_of_detail(d, ts), d, ts);
        assert(o1.update(i2, merge_detail(o1[i2], d, ts)) =~= o1);
    }
}

/// Role derivation: a buyer match projects `YOU_BUY`; with no nickname
/// configured the same entity projects `UNKNOWN`.
pub proof fn lemma_role_derivation(o: OrderModel, nick: Seq<char>)
    requires
        o.buyer_nick == nick,
    ensures
        project(o, Some(nick)).side_role == "YOU_BUY"@,
        project(o, None).side_role == "UNKNOWN"@,
{
}

/// Merging a summary never changes the merge key.
pub proof fn lemma_merge_summary_keeps_number(o: OrderModel, s: SummaryModel, ts: i64)
    ensures
        merge_summary(o, s, ts).order_number == o.order_number,
{
    match s.payment_fields {
        Some(fs) => {
            lemma_apply_fields_char(
                OrderModel {
                    stage: OrderStage::Code(s.order_status_raw),
                    amount_asset: s.amount_asset,
                    total_fiat: s.total_fiat,
                    price: s.price,
                    last_update_ts: ts,
                    ..o
                },
                fs,
            );
        },
        None => {},
    }
}

/// Merging a detail never changes the merge key.
pub proof fn lemma_merge_detail_keeps_number(o: OrderModel, d: DetailModel, ts: i64)
    ensures
        merge_detail(o, d, ts).order_number == o.order_number,
{
    lemma_apply_fields_char(
        OrderModel {
            stage: OrderStage::Code(d.order_status_raw),
            remark: d.remark,
            expected_pay_time_ms: d.expected_pay_time_ms,
            last_update_ts: ts,
            ..o
        },
        d.payment_fields,
    );
}

/// A collection whose entity at `i` was replaced by one with the same
/// key, or extended by one with a fresh key, keeps one entity per key.
pub proof fn lemma_wf_update_same_number(orders: Seq<OrderModel>, i: int, m: OrderModel)
    requires
        store_wf(orders),
        0 <= i < orders.len(),
        m.order_number == orders[i].order_number,
    ensures
        store_wf(orders.update(i, m)),
{
    let upd = orders.update(i, m);
    assert forall|a: int, b: int| 0 <= a < b < upd.len() implies (#[trigger] upd[a]).order_number
        != (#[trigger] upd[b]).order_number by {
        assert(upd[a].order_number == orders[a].order_number);
        assert(upd[b].order_number == orders[b].order_number);
    }
}

pub proof fn lemma_wf_push_fresh_number(orders: Seq<OrderModel>, m: OrderModel)
    requires
        store_wf(orders),
        forall|k: int| 0 <= k < orders.len() ==> (#[trigger] orders[k]).order_number
            != m.order_number,
    ensures
        store_wf(orders.push(m)),
{
    let ext = orders.push(m);
    assert forall|a: int, b: int| 0 <= a < b < ext.len() implies (#[trigger] ext[a]).order_number
        != (#[trigger] ext[b]).order_number by {
        assert(ext[a] == orders[a]);
        if b < orders.len() {
            assert(ext[b] == orders[b]);
        } else {
            assert(ext[b] == m);
        }
    }
}

/// Folding one summary in keeps exactly one entity per order number.
pub proof fn lemma_upsert_summary_preserves_wf(orders: Seq<OrderModel>, s: SummaryModel, ts: i64)
    requires
        store_wf(orders),
    ensures
        store_wf(upsert_one_summary(orders, s, ts)),
{
    let i = find_order(orders, s.order_number);
    lemma_find_order(orders, s.order_number);
    if i >= 0 {
        lemma_merge_summary_keeps_number(orders[i], s, ts);
        lemma_wf_update_same_number(orders, i, merge_summary(orders[i], s, ts));
    } else {
        lemma_merge_summary_keeps_number(order_of_summary(s, ts), s, ts);
        lemma_wf_push_fresh_number(orders, merge_summary(order_of_summary(s, ts), s, ts));
    }
}

/// Folding a whole batch in keeps exactly one entity per order number.
pub proof fn lemma_upsert_summaries_preserve_wf(
    orders: Seq<OrderModel>,
    list: Seq<SummaryModel>,
    ts: i64,
)
    requires
        store_wf(orders),
    ensures
        store_wf(upsert_summaries_spec(orders, list, ts)),
    decreases list.len(),
{
    if list.len() > 0 {
        lemma_upsert_summaries_preserve_wf(orders, list.drop_last(), ts);
        lemma_upsert_summary_preserves_wf(
            upsert_summaries_spec(orders, list.drop_last(), ts),
            list.last(),
            ts,
        );
    }
}

/// Folding one detail in keeps exactly one entity per order number.
pub proof fn lemma_upsert_detail_preserves_wf(orders: Seq<OrderModel>, d: DetailModel, ts: i64)
    requires
        store_wf(orders),
    ensures
        store_wf(upsert_detail_spec(orders, d, ts)),
{
    let i = find_order(orders, d.order_number);
    lemma_find_order(orders, d.order_number);
    if i >= 0 {
        lemma_merge_detail_keeps_number(orders[i], d, ts);
        lemma_wf_update_same_number(orders, i, merge_detail(orders[i], d, ts));
    } else {
        lemma_merge_detail_keeps_number(order_of_detail(d, ts), d, ts);
        lemma_wf_push_fresh_number(orders, merge_detail(order_of_detail(d, ts), d, ts));
    }
}

} // verus!
