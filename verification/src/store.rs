//! The order reconciliation store: a keyed collection of merged order
//! entities, the merge rules for summary and detail records, and the
//! projected read-only view with its derived side role.
use vstd::prelude::*;
use vstd::string::StringExecFns;

use crate::fields::FieldModel;
use crate::parser_detail::{DetailModel, OrderDetailParsed};
use crate::parser_list::{OrderSummaryParsed, SummaryModel};
use crate::status::{stage_label_spec, OrderStage};
use crate::strutil::str_eq;

verus! {

/// One merged order entity.
#[derive(Debug, Clone)]
pub struct Order {
    pub order_number: String,
    pub trade_type: String,
    pub asset: String,
    pub fiat: String,
    pub amount_asset: String,
    pub total_fiat: String,
    pub price: String,
    pub stage: OrderStage,
    pub create_time_ms: i64,
    pub buyer_nick: String,
    pub seller_nick: String,
    pub account_name: Option<String>,
    pub account_no: Option<String>,
    pub bank_name: Option<String>,
    pub sub_bank: Option<String>,
    pub qr_code: Option<String>,
    pub remark: Option<String>,
    pub expected_pay_time_ms: Option<i64>,
    pub last_update_ts: i64,
}

/// An order entity as plain values.
pub ghost struct OrderModel {
    pub order_number: Seq<char>,
    pub trade_type: Seq<char>,
    pub asset: Seq<char>,
    pub fiat: Seq<char>,
    pub amount_asset: Seq<char>,
    pub total_fiat: Seq<char>,
    pub price: Seq<char>,
    pub stage: OrderStage,
    pub create_time_ms: i64,
    pub buyer_nick: Seq<char>,
    pub seller_nick: Seq<char>,
    pub account_name: Option<Seq<char>>,
    pub account_no: Option<Seq<char>>,
    pub bank_name: Option<Seq<char>>,
    pub sub_bank: Option<Seq<char>>,
    pub qr_code: Option<Seq<char>>,
    pub remark: Option<Seq<char>>,
    pub expected_pay_time_ms: Option<i64>,
    pub last_update_ts: i64,
}

pub open spec fn str_view(v: Option<String>) -> Option<Seq<char>> {
    match v {
        Some(s) => Some(s@),
        None => None,
    }
}

impl View for Order {
    type V = OrderModel;

    open spec fn view(&self) -> OrderModel {
        OrderModel {
            order_number: self.order_number@,
            trade_type: self.trade_type@,
            asset: self.asset@,
            fiat: self.fiat@,
            amount_asset: self.amount_asset@,
            total_fiat: self.total_fiat@,
            price: self.price@,
            stage: self.stage,
            create_time_ms: self.create_time_ms,
            buyer_nick: self.buyer_nick@,
            seller_nick: self.seller_nick@,
            account_name: str_view(self.account_name),
            account_no: str_view(self.account_no),
            bank_name: str_view(self.bank_name),
            sub_bank: str_view(self.sub_bank),
            qr_code: str_view(self.qr_code),
            remark: str_view(self.remark),
            expected_pay_time_ms: self.expected_pay_time_ms,
            last_update_ts: self.last_update_ts,
        }
    }
}

/// One payment field folded into an entity: a recognized type tag with
/// a value sets that one sub-field; anything else changes nothing.
pub open spec fn apply_one_field(o: OrderModel, f: FieldModel) -> OrderModel {
    match f.field_value {
        Some(v) => if f.field_type == "payee"@ {
            OrderModel { account_name: Some(v), ..o }
        } else if f.field_type == "pay_account"@ {
            OrderModel { account_no: Some(v), ..o }
        } else if f.field_type == "bank"@ {
            OrderModel { bank_name: Some(v), ..o }
        } else if f.field_type == "sub_bank"@ {
            OrderModel { sub_bank: Some(v), ..o }
        } else if f.field_type == "qr_code"@ {
            OrderModel { qr_code: Some(v), ..o }
        } else {
            o
        },
        None => o,
    }
}

/// Payment fields folded in, first to last.
pub open spec fn apply_fields(o: OrderModel, fs: Seq<FieldModel>) -> OrderModel
    decreases fs.len(),
{
    if fs.len() == 0 {
        o
    } else {
        apply_one_field(apply_fields(o, fs.drop_last()), fs.last())
    }
}

/// A fresh entity created from a summary record.
pub open spec fn order_of_summary(s: SummaryModel, ts: i64) -> OrderModel {
    OrderModel {
        order_number: s.order_number,
        trade_type: s.trade_type,
        asset: s.asset,
        fiat: s.fiat,
        amount_asset: s.amount_asset,
        total_fiat: s.total_fiat,
        price: s.price,
        stage: OrderStage::Code(s.order_status_raw),
        create_time_ms: s.create_time_ms,
        buyer_nick: s.buyer_nick,
        seller_nick: s.seller_nick,
        account_name: None,
        account_no: None,
        bank_name: None,
        sub_bank: None,
        qr_code: None,
        remark: None,
        expected_pay_time_ms: None,
        last_update_ts: ts,
    }
}

/// A summary merged into an entity: stage, amounts, price and timestamp
/// overwritten; payment fields applied additively.
pub open spec fn merge_summary(o: OrderModel, s: SummaryModel, ts: i64) -> OrderModel {
    let base = OrderModel {
        stage: OrderStage::Code(s.order_status_raw),
        amount_asset: s.amount_asset,
        total_fiat: s.total_fiat,
        price: s.price,
        last_update_ts: ts,
        ..o
    };
    match s.payment_fields {
        Some(fs) => apply_fields(base, fs),
        None => base,
    }
}

/// A fresh entity created from a detail record: display fields empty
/// until a summary supplies them.
pub open spec fn order_of_detail(d: DetailModel, ts: i64) -> OrderModel {
    OrderModel {
        order_number: d.order_number,
        trade_type: Seq::<char>::empty(),
        asset: Seq::<char>::empty(),
        fiat: Seq::<char>::empty(),
        amount_asset: Seq::<char>::empty(),
        total_fiat: Seq::<char>::empty(),
        price: Seq::<char>::empty(),
        stage: OrderStage::Code(d.order_status_raw),
        create_time_ms: 0,
        buyer_nick: Seq::<char>::empty(),
        seller_nick: Seq::<char>::empty(),
        account_name: None,
        account_no: None,
        bank_name: None,
        sub_bank: None,
        qr_code: None,
        remark: None,
        expected_pay_time_ms: None,
        last_update_ts: ts,
    }
}

/// A detail merged into an entity: stage, remark, expected pay time and
/// timestamp overwritten; payment fields applied additively.
pub open spec fn merge_detail(o: OrderModel, d: DetailModel, ts: i64) -> OrderModel {
    let base = OrderModel {
        stage: OrderStage::Code(d.order_status_raw),
        remark: d.remark,
        expected_pay_time_ms: d.expected_pay_time_ms,
        last_update_ts: ts,
        ..o
    };
    apply_fields(base, d.payment_fields)
}

/// The index of the first entity with this order number, or -1.
pub open spec fn find_order(orders: Seq<OrderModel>, on: Seq<char>) -> int
    decreases orders.len(),
{
    if orders.len() == 0 {
        -1
    } else if orders[0].order_number == on {
        0
    } else {
        let r = find_order(orders.drop_first(), on);
        if r == -1 {
            -1
        } else {
            r + 1
        }
    }
}

/// `find_order` is the first matching index, and -1 exactly when no
/// entity matches.
pub proof fn lemma_find_order(orders: Seq<OrderModel>, on: Seq<char>)
    ensures
        find_order(orders, on) == -1 ==> forall|k: int|
            0 <= k < orders.len() ==> (#[trigger] orders[k]).order_number != on,
        find_order(orders, on) != -1 ==> 0 <= find_order(orders, on) < orders.len()
            && orders[find_order(orders, on)].order_number == on && forall|k: int|
            0 <= k < find_order(orders, on) ==> (#[trigger] orders[k]).order_number != on,
    decreases orders.len(),
{
    if orders.len() > 0 && orders[0].order_number != on {
        let sub = orders.drop_first();
        lemma_find_order(sub, on);
        if find_order(sub, on) == -1 {
            assert forall|k: int| 0 <= k < orders.len() implies (
            #[trigger] orders[k]).order_number != on by {
                if k > 0 {
                    assert(sub[k - 1] == orders[k]);
                }
            }
        } else {
            let r = find_order(sub, on);
            assert(sub[r] == orders[r + 1]);
            assert forall|k: int| 0 <= k < r + 1 implies (#[trigger] orders[k]).order_number
                != on by {
                if k > 0 {
                    assert(sub[k - 1] == orders[k]);
                }
            }
        }
    }
}

/// One summary folded into the collection: merged into the first
/// entity with its order number, or appended as a fresh entity.
pub open spec fn upsert_one_summary(orders: Seq<OrderModel>, s: SummaryModel, ts: i64) -> Seq<
    OrderModel,
> {
    let i = find_order(orders, s.order_number);
    if i >= 0 {
        orders.update(i, merge_summary(orders[i], s, ts))
    } else {
        orders.push(merge_summary(order_of_summary(s, ts), s, ts))
    }
}

/// A whole batch folded in, first record to last.
pub open spec fn upsert_summaries_spec(
    orders: Seq<OrderModel>,
    list: Seq<SummaryModel>,
    ts: i64,
) -> Seq<OrderModel>
    decreases list.len(),
{
    if list.len() == 0 {
        orders
    } else {
        upsert_one_summary(upsert_summaries_spec(orders, list.drop_last(), ts), list.last(), ts)
    }
}

/// One detail folded into the collection.
pub open spec fn upsert_detail_spec(orders: Seq<OrderModel>, d: DetailModel, ts: i64) -> Seq<
    OrderModel,
> {
    let i = find_order(orders, d.order_number);
    if i >= 0 {
        orders.update(i, merge_detail(orders[i], d, ts))
    } else {
        orders.push(merge_detail(order_of_detail(d, ts), d, ts))
    }
}

/// A stage-only update: the entity's stage and timestamp when it
/// exists, nothing otherwise.
pub open spec fn quick_update_spec(
    orders: Seq<OrderModel>,
    on: Seq<char>,
    code: u8,
    ts: i64,
) -> Seq<OrderModel> {
    let i = find_order(orders, on);
    if i >= 0 {
        orders.update(
            i,
            OrderModel { stage: OrderStage::Code(code), last_update_ts: ts, ..orders[i] },
        )
    } else {
        orders
    }
}

/// The viewer's relation to an order: buyer match, seller match, no
/// match, or no nickname configured.
pub open spec fn role_of(buyer: Seq<char>, seller: Seq<char>, nick: Option<Seq<char>>) -> Seq<
    char,
> {
    match nick {
        Some(m) => if buyer == m {
            "YOU_BUY"@
        } else if seller == m {
            "YOU_SELL"@
        } else {
            "OTHER"@
        },
        None => "UNKNOWN"@,
    }
}

pub open spec fn opt_or_empty(v: Option<Seq<char>>) -> Seq<char> {
    match v {
        Some(s) => s,
        None => Seq::<char>::empty(),
    }
}

/// A projected order view as plain values.
pub ghost struct OrderViewModel {
    pub order_number: Seq<char>,
    pub side_role: Seq<char>,
    pub trade_type: Seq<char>,
    pub fiat: Seq<char>,
    pub asset: Seq<char>,
    pub amount_asset: Seq<char>,
    pub total_fiat: Seq<char>,
    pub price: Seq<char>,
    pub stage_label: Seq<char>,
    pub account_name: Seq<char>,
    pub account_no: Seq<char>,
    pub bank_name: Seq<char>,
    pub last_update_ts: i64,
}

/// The read-only projection of one entity under the current nickname:
/// unset payment fields project to empty strings, never to an absent
/// value.
pub open spec fn project(o: OrderModel, nick: Option<Seq<char>>) -> OrderViewModel {
    OrderViewModel {
        order_number: o.order_number,
        side_role: role_of(o.buyer_nick, o.seller_nick, nick),
        trade_type: o.trade_type,
        fiat: o.fiat,
        asset: o.asset,
        amount_asset: o.amount_asset,
        total_fiat: o.total_fiat,
        price: o.price,
        stage_label: stage_label_spec(o.stage),
        account_name: opt_or_empty(o.account_name),
        account_no: opt_or_empty(o.account_no),
        bank_name: opt_or_empty(o.bank_name),
        last_update_ts: o.last_update_ts,
    }
}

pub open spec fn project_all(orders: Seq<OrderModel>, nick: Option<Seq<char>>) -> Seq<
    OrderViewModel,
> {
    orders.map_values(|o: OrderModel| project(o, nick))
}

/// One projected order view.
#[derive(Debug, Clone)]
pub struct OrderView {
    pub order_number: String,
    pub side_role: String,
    pub trade_type: String,
    pub fiat: String,
    pub asset: String,
    pub amount_asset: String,
    pub total_fiat: String,
    pub price: String,
    pub stage_label: String,
    pub account_name: String,
    pub account_no: String,
    pub bank_name: String,
    pub last_update_ts: i64,
}

impl View for OrderView {
    type V = OrderViewModel;

    open spec fn view(&self) -> OrderViewModel {
        OrderViewModel {
            order_number: self.order_number@,
            side_role: self.side_role@,
            trade_type: self.trade_type@,
            fiat: self.fiat@,
            asset: self.asset@,
            amount_asset: self.amount_asset@,
            total_fiat: self.total_fiat@,
            price: self.price@,
            stage_label: self.stage_label@,
            account_name: self.account_name@,
            account_no: self.account_no@,
            bank_name: self.bank_name@,
            last_update_ts: self.last_update_ts,
        }
    }
}

pub open spec fn orders_view(s: Seq<Order>) -> Seq<OrderModel> {
    s.map_values(|o: Order| o@)
}

/// The store as plain values: the entities in insertion order, and the
/// process-wide nickname.
pub ghost struct StoreModel {
    pub orders: Seq<OrderModel>,
    pub nickname: Option<Seq<char>>,
}

/// No two entities share an order number.
pub open spec fn store_wf(orders: Seq<OrderModel>) -> bool {
    forall|i: int, j: int|
        0 <= i < j < orders.len() ==> (#[trigger] orders[i]).order_number != (
        #[trigger] orders[j]).order_number
}

/// The order reconciliation store. Entities are kept in first-seen
/// order and never deleted.
pub struct OrderStore {
    orders: Vec<Order>,
    my_nickname: Option<String>,
}

impl View for OrderStore {
    type V = StoreModel;

    closed spec fn view(&self) -> StoreModel {
        StoreModel { orders: orders_view(self.orders@), nickname: str_view(self.my_nickname) }
    }
}

impl OrderStore {
    pub fn new() -> (r: Self)
        ensures
            r@.orders == Seq::<OrderModel>::empty(),
            r@.nickname is None,
    {
        let r = OrderStore { orders: Vec::new(), my_nickname: None };
        proof {
            assert(r@.orders =~= Seq::<OrderModel>::empty());
        }
        r
    }

    /// Replaces the process-wide nickname; stored entities are
    /// untouched.
    pub fn set_my_nickname(&mut self, nick: String)
        ensures
            final(self)@.orders == old(self)@.orders,
            final(self)@.nickname == Some(nick@),
    {
        self.my_nickname = Some(nick);
    }

    /// The index of the first entity with this order number.
    fn find_index(&self, on: &str) -> (r: Option<usize>)
        ensures
            match r {
                Some(i) => find_order(self@.orders, on@) == i && i < self@.orders.len(),
                None => find_order(self@.orders, on@) == -1,
            },
    {
        let n = self.orders.len();
        let mut i: usize = 0;
        proof {
            lemma_find_order(self@.orders, on@);
        }
        while i < n
            invariant
                n == self.orders@.len(),
                0 <= i <= n,
                forall|k: int|
                    0 <= k < i ==> (#[trigger] orders_view(self.orders@)[k]).order_number != on@,
            decreases n - i,
        {
            if str_eq(self.orders[i].order_number.as_str(), on) {
                proof {
                    lemma_find_order(orders_view(self.orders@), on@);
                    assert(orders_view(self.orders@)[i as int].order_number == on@);
                }
                return Some(i);
            }
            i = i + 1;
        }
        proof {
            lemma_find_order(orders_view(self.orders@), on@);
        }
        None
    }

    /// Folds one summary record in.
    fn upsert_one(&mut self, s: &OrderSummaryParsed, ts: i64)
        ensures
            final(self)@.orders == upsert_one_summary(old(self)@.orders, s@, ts),
            final(self)@.nickname == old(self)@.nickname,
    {
        match self.find_index(s.order_number.as_str()) {
            Some(i) => {
                let entry = self.orders.remove(i);
                let merged = merge_summary_exec(entry, s, ts);
                self.orders.insert(i, merged);
                proof {
                    assert(orders_view(self.orders@) =~= upsert_one_summary(
                        old(self)@.orders,
                        s@,
                        ts,
                    ));
                }
            },
            None => {
                let fresh = order_of_summary_exec(s, ts);
                let merged = merge_summary_exec(fresh, s, ts);
                self.orders.push(merged);
                proof {
                    assert(orders_view(self.orders@) =~= upsert_one_summary(
                        old(self)@.orders,
                        s@,
                        ts,
                    ));
                }
            },
        }
    }

    /// Folds a whole batch of summary records in, first to last; the
    /// batch is processed even when individual records are degenerate.
    pub fn upsert_summaries(&mut self, list: Vec<OrderSummaryParsed>, ts: i64)
        ensures
            final(self)@.orders == upsert_summaries_spec(
                old(self)@.orders,
                list@.map_values(|s: OrderSummaryParsed| s@),
                ts,
            ),
            final(self)@.nickname == old(self)@.nickname,
    {
        let n = list.len();
        let mut i: usize = 0;
        proof {
            assert(list@.take(0).map_values(|s: OrderSummaryParsed| s@)
                =~= Seq::<SummaryModel>::empty());
        }
        while i < n
            invariant
                n == list@.len(),
                0 <= i <= n,
                self@.orders == upsert_summaries_spec(
                    old(self)@.orders,
                    list@.take(i as int).map_values(|s: OrderSummaryParsed| s@),
                    ts,
                ),
                self@.nickname == old(self)@.nickname,
            decreases n - i,
        {
            self.upsert_one(&list[i], ts);
            proof {
                let f = |s: OrderSummaryParsed| s@;
                assert(list@.take(i + 1).map_values(f).drop_last() =~= list@.take(
                    i as int,
                ).map_values(f));
                assert(list@.take(i + 1).map_values(f).last() == list@[i as int]@);
            }
            i = i + 1;
        }
        proof {
            assert(list@.take(n as int) =~= list@);
        }
    }

    /// Folds one detail record in, creating the entity with empty
    /// display fields on first sighting.
    pub fn upsert_detail(&mut self, d: OrderDetailParsed, ts: i64)
        ensures
            final(self)@.orders == upsert_detail_spec(old(self)@.orders, d@, ts),
            final(self)@.nickname == old(self)@.nickname,
    {
        match self.find_index(d.order_number.as_str()) {
            Some(i) => {
                let entry = self.orders.remove(i);
                let merged = merge_detail_exec(entry, &d, ts);
                self.orders.insert(i, merged);
                proof {
                    assert(orders_view(self.orders@) =~= upsert_detail_spec(
                        old(self)@.orders,
                        d@,
                        ts,
                    ));
                }
            },
            None => {
                let fresh = order_of_detail_exec(&d, ts);
                let merged = merge_detail_exec(fresh, &d, ts);
                self.orders.push(merged);
                proof {
                    assert(orders_view(self.orders@) =~= upsert_detail_spec(
                        old(self)@.orders,
                        d@,
                        ts,
                    ));
                }
            },
        }
    }

    /// Overwrites stage and timestamp of an existing entity; an unknown
    /// order number changes nothing.
    pub fn quick_update_status(&mut self, order_number: &str, code: u8, ts: i64)
        ensures
            final(self)@.orders == quick_update_spec(
                old(self)@.orders,
                order_number@,
                code,
                ts,
            ),
            final(self)@.nickname == old(self)@.nickname,
    {
        match self.find_index(order_number) {
            Some(i) => {
                let mut entry = self.orders.remove(i);
                entry.stage = OrderStage::from_code(code);
                entry.last_update_ts = ts;
                self.orders.insert(i, entry);
                proof {
                    assert(orders_view(self.orders@) =~= quick_update_spec(
                        old(self)@.orders,
                        order_number@,
                        code,
                        ts,
                    ));
                }
            },
            None => {},
        }
    }

    /// A snapshot of projected views, one per entity, in insertion
    /// order, under the current nickname.
    pub fn list(&self) -> (r: Vec<OrderView>)
        ensures
            r@.map_values(|v: OrderView| v@) == project_all(self@.orders, self@.nickname),
    {
        let n = self.orders.len();
        let mut out: Vec<OrderView> = Vec::new();
        let mut i: usize = 0;
        while i < n
            invariant
                n == self.orders@.len(),
                0 <= i <= n,
                out@.map_values(|v: OrderView| v@) =~= project_all(
                    self@.orders,
                    self@.nickname,
                ).take(i as int),
            decreases n - i,
        {
            let o = &self.orders[i];
            let side_role = match &self.my_nickname {
                Some(m) => {
                    if str_eq(o.buyer_nick.as_str(), m.as_str()) {
                        String::from_str("YOU_BUY")
                    } else if str_eq(o.seller_nick.as_str(), m.as_str()) {
                        String::from_str("YOU_SELL")
                    } else {
                        String::from_str("OTHER")
                    }
                },
                None => String::from_str("UNKNOWN"),
            };
            let v = OrderView {
                order_number: o.order_number.clone(),
                side_role,
                trade_type: o.trade_type.clone(),
                fiat: o.fiat.clone(),
                asset: o.asset.clone(),
                amount_asset: o.amount_asset.clone(),
                total_fiat: o.total_fiat.clone(),
                price: o.price.clone(),
                stage_label: o.stage.label(),
                account_name: opt_clone_or_empty(&o.account_name),
                account_no: opt_clone_or_empty(&o.account_no),
                bank_name: opt_clone_or_empty(&o.bank_name),
                last_update_ts: o.last_update_ts,
            };
            proof {
                assert(v@ == project(self@.orders[i as int], self@.nickname));
            }
            let ghost prev = out@;
            out.push(v);
            proof {
                let f = |vv: OrderView| vv@;
                let all = project_all(self@.orders, self@.nickname);
                assert(all[i as int] == project(self@.orders[i as int], self@.nickname));
                assert(out@.map_values(f) =~= prev.map_values(f).push(v@));
                assert(prev.map_values(f).push(v@) =~= all.take(i + 1));
            }
            i = i + 1;
        }
        proof {
            assert(project_all(self@.orders, self@.nickname).take(n as int) =~= project_all(
                self@.orders,
                self@.nickname,
            ));
        }
        out
    }
}

impl Default for OrderStore {
    fn default() -> (r: Self)
        ensures
            r@.orders == Seq::<OrderModel>::empty(),
            r@.nickname is None,
    {
        Self::new()
    }
}

fn opt_clone_or_empty(v: &Option<String>) -> (r: String)
    ensures
        r@ == opt_or_empty(str_view(*v)),
{
    match v {
        Some(s) => s.clone(),
        None => String::new(),
    }
}

/// Applies payment fields to an entity, first to last.
fn apply_fields_exec(o: &mut Order, fs: &Vec<crate::parser_list::PaymentField>)
    ensures
        final(o)@ == apply_fields(
            old(o)@,
            fs@.map_values(|f: crate::parser_list::PaymentField| f@),
        ),
{
    let n = fs.len();
    let mut i: usize = 0;
    proof {
        assert(fs@.take(0).map_values(|f: crate::parser_list::PaymentField| f@)
            =~= Seq::<FieldModel>::empty());
    }
    while i < n
        invariant
            n == fs@.len(),
            0 <= i <= n,
            o@ == apply_fields(
                old(o)@,
                fs@.take(i as int).map_values(|f: crate::parser_list::PaymentField| f@),
            ),
        decreases n - i,
    {
        apply_one_exec(o, &fs[i].field_type, &fs[i].field_value);
        proof {
            let f = |ff: crate::parser_list::PaymentField| ff@;
            assert(fs@.take(i + 1).map_values(f).drop_last() =~= fs@.take(i as int).map_values(
                f,
            ));
            assert(fs@.take(i + 1).map_values(f).last() == fs@[i as int]@);
        }
        i = i + 1;
    }
    proof {
        assert(fs@.take(n as int) =~= fs@);
    }
}

/// Applies payment fields of a detail record, first to last.
fn apply_detail_fields_exec(o: &mut Order, fs: &Vec<crate::parser_detail::PaymentField>)
    ensures
        final(o)@ == apply_fields(
            old(o)@,
            fs@.map_values(|f: crate::parser_detail::PaymentField| f@),
        ),
{
    let n = fs.len();
    let mut i: usize = 0;
    proof {
        assert(fs@.take(0).map_values(|f: crate::parser_detail::PaymentField| f@)
            =~= Seq::<FieldModel>::empty());
    }
    while i < n
        invariant
            n == fs@.len(),
            0 <= i <= n,
            o@ == apply_fields(
                old(o)@,
                fs@.take(i as int).map_values(|f: crate::parser_detail::PaymentField| f@),
            ),
        decreases n - i,
    {
        apply_one_exec(o, &fs[i].field_type, &fs[i].field_value);
        proof {
            let f = |ff: crate::parser_detail::PaymentField| ff@;
            assert(fs@.take(i + 1).map_values(f).drop_last() =~= fs@.take(i as int).map_values(
                f,
            ));
            assert(fs@.take(i + 1).map_values(f).last() == fs@[i as int]@);
        }
        i = i + 1;
    }
    proof {
        assert(fs@.take(n as int) =~= fs@);
    }
}

/// Applies one (type, value) payment field.
fn apply_one_exec(o: &mut Order, field_type: &String, field_value: &Option<String>)
    ensures
        final(o)@ == apply_one_field(
            old(o)@,
            FieldModel { field_type: field_type@, field_value: str_view(*field_value) },
        ),
{
    match field_value {
        Some(v) => {
            if str_eq(field_type.as_str(), "payee") {
                o.account_name = Some(v.clone());
            } else if str_eq(field_type.as_str(), "pay_account") {
                o.account_no = Some(v.clone());
            } else if str_eq(field_type.as_str(), "bank") {
                o.bank_name = Some(v.clone());
            } else if str_eq(field_type.as_str(), "sub_bank") {
                o.sub_bank = Some(v.clone());
            } else if str_eq(field_type.as_str(), "qr_code") {
                o.qr_code = Some(v.clone());
            }
        },
        None => {},
    }
}

/// Builds the fresh entity for a first-seen summary.
fn order_of_summary_exec(s: &OrderSummaryParsed, ts: i64) -> (r: Order)
    ensures
        r@ == order_of_summary(s@, ts),
{
    Order {
        order_number: s.order_number.clone(),
        trade_type: s.trade_type.clone(),
        asset: s.asset.clone(),
        fiat: s.fiat.clone(),
        amount_asset: s.amount_asset.clone(),
        total_fiat: s.total_fiat.clone(),
        price: s.price.clone(),
        stage: OrderStage::from_code(s.order_status_raw),
        create_time_ms: s.create_time_ms,
        buyer_nick: s.buyer_nick.clone(),
        seller_nick: s.seller_nick.clone(),
        account_name: None,
        account_no: None,
        bank_name: None,
        sub_bank: None,
        qr_code: None,
        remark: None,
        expected_pay_time_ms: None,
        last_update_ts: ts,
    }
}

/// Merges one summary into an entity.
fn merge_summary_exec(entry: Order, s: &OrderSummaryParsed, ts: i64) -> (r: Order)
    ensures
        r@ == merge_summary(entry@, s@, ts),
{
    let mut o = entry;
    o.stage = OrderStage::from_code(s.order_status_raw);
    o.amount_asset = s.amount_asset.clone();
    o.total_fiat = s.total_fiat.clone();
    o.price = s.price.clone();
    o.last_update_ts = ts;
    match &s.payment_fields {
        Some(fs) => {
            apply_fields_exec(&mut o, fs);
        },
        None => {},
    }
    o
}

/// Builds the fresh entity for a first-seen detail.
fn order_of_detail_exec(d: &OrderDetailParsed, ts: i64) -> (r: Order)
    ensures
        r@ == order_of_detail(d@, ts),
{
    Order {
        order_number: d.order_number.clone(),
        trade_type: String::new(),
        asset: String::new(),
        fiat: String::new(),
        amount_asset: String::new(),
        total_fiat: String::new(),
        price: String::new(),
        stage: OrderStage::from_code(d.order_status_raw),
        create_time_ms: 0,
        buyer_nick: String::new(),
        seller_nick: String::new(),
        account_name: None,
        account_no: None,
        bank_name: None,
        sub_bank: None,
        qr_code: None,
        remark: None,
        expected_pay_time_ms: None,
        last_update_ts: ts,
    }
}

/// Merges one detail into an entity.
fn merge_detail_exec(entry: Order, d: &OrderDetailParsed, ts: i64) -> (r: Order)
    ensures
        r@ == merge_detail(entry@, d@, ts),
{
    let mut o = entry;
    o.stage = OrderStage::from_code(d.order_status_raw);
    o.remark = match &d.remark {
        Some(s) => Some(s.clone()),
        None => None,
    };
    o.expected_pay_time_ms = d.expected_pay_time_ms;
    o.last_update_ts = ts;
    apply_detail_fields_exec(&mut o, &d.payment_fields);
    o
}

} // verus!
