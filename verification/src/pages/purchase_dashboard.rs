//! The purchase overview: its figures and its to-do list.
use vstd::prelude::*;
use crate::decimal::{all_wf, dec_checked_add, dec_sum, decimal_checked_add, sum_parts, Dec};
use crate::text::{int_text, push_str, u64_text};

verus! {

/// The counts the overview reads from the services.
#[derive(PartialEq, Eq, Structural, Clone, Copy, Debug)]
pub struct DashboardCounts {
    pub active_suppliers: u64,
    pub pending_quotations: u64,
    pub draft_orders: u64,
    pub confirmed_orders: u64,
    pub partial_orders: u64,
    pub draft_returns: u64,
    pub confirmed_returns: u64,
    pub shipped_returns: u64,
    pub draft_recons: u64,
    pub pending_misc: u64,
    pub draft_payments: u64,
}

/// The overview's figures.
#[derive(PartialEq, Eq, Structural, Clone, Copy, Debug)]
pub struct DashboardStats {
    pub active_suppliers: u64,
    pub pending_quotations: u64,
    pub in_progress_orders: u64,
    pub pending_payment_total: Dec,
    pub returns_in_progress: u64,
    pub draft_recons: u64,
    pub draft_payments: u64,
    pub pending_misc: u64,
}

/// The figures from the counts and the amounts of the draft and of the
/// approved payment requests: orders in progress are the draft, confirmed
/// and partially received ones; returns in progress the draft, confirmed
/// and shipped ones; the payment total is the sum of both lists of amounts.
/// `None` where the amount sum overflows.
pub fn dashboard_stats(c: &DashboardCounts, draft_amounts: &Vec<Dec>, approved_amounts: &Vec<Dec>) -> (r:
    Option<DashboardStats>)
    requires
        c.draft_orders + c.confirmed_orders + c.partial_orders <= u64::MAX,
        c.draft_returns + c.confirmed_returns + c.shipped_returns <= u64::MAX,
        all_wf(draft_amounts@),
        all_wf(approved_amounts@),
    ensures
        match r {
            Some(s) => {
                &&& s.active_suppliers == c.active_suppliers
                &&& s.pending_quotations == c.pending_quotations
                &&& s.in_progress_orders == c.draft_orders + c.confirmed_orders + c.partial_orders
                &&& s.returns_in_progress == c.draft_returns + c.confirmed_returns + c.shipped_returns
                &&& s.draft_recons == c.draft_recons
                &&& s.draft_payments == c.draft_payments
                &&& s.pending_misc == c.pending_misc
                &&& s.pending_payment_total.wf()
                &&& match (sum_parts(draft_amounts@), sum_parts(approved_amounts@)) {
                    (Some(a), Some(b)) => decimal_checked_add(a, b) == Some(
                        s.pending_payment_total.parts(),
                    ),
                    _ => false,
                }
            },
            None => match (sum_parts(draft_amounts@), sum_parts(approved_amounts@)) {
                (Some(a), Some(b)) => decimal_checked_add(a, b) is None,
                _ => true,
            },
        },
{
    let total = match (dec_sum(draft_amounts), dec_sum(approved_amounts)) {
        (Some(a), Some(b)) => dec_checked_add(&a, &b),
        _ => None,
    };
    match total {
        Some(t) => Some(
            DashboardStats {
                active_suppliers: c.active_suppliers,
                pending_quotations: c.pending_quotations,
                in_progress_orders: c.draft_orders + c.confirmed_orders + c.partial_orders,
                pending_payment_total: t,
                returns_in_progress: c.draft_returns + c.confirmed_returns + c.shipped_returns,
                draft_recons: c.draft_recons,
                draft_payments: c.draft_payments,
                pending_misc: c.pending_misc,
            },
        ),
        None => None,
    }
}

/// One line of the to-do list: state key and pill text, description, time
/// text, and whether it closes the list.
#[derive(Clone, Debug)]
pub struct TodoItem {
    pub status_key: &'static str,
    pub status_text: &'static str,
    pub desc: String,
    pub time: &'static str,
    pub last: bool,
}

pub open spec fn todo_view(t: TodoItem) -> (Seq<char>, Seq<char>, Seq<char>, Seq<char>, bool) {
    (t.status_key@, t.status_text@, t.desc@, t.time@, t.last)
}

/// The line for a count, when it is not zero.
pub open spec fn todo_if(n: u64, key: Seq<char>, text: Seq<char>, what: Seq<char>) -> Seq<
    (Seq<char>, Seq<char>, Seq<char>, Seq<char>, bool),
> {
    if n > 0 {
        seq![(key, text, int_text(n as int) + what, "需处理"@, false)]
    } else {
        Seq::empty()
    }
}

/// The to-do lines of the figures, in the page's order.
pub open spec fn todo_lines(s: DashboardStats) -> Seq<(Seq<char>, Seq<char>, Seq<char>, Seq<char>, bool)> {
    todo_if(s.pending_quotations, "status-progress"@, "待比价"@, " 份采购报价待比价"@)
        + todo_if(s.in_progress_orders, "status-draft"@, "待确认"@, " 笔采购订单待确认"@)
        + todo_if(s.returns_in_progress, "status-info"@, "退货中"@, " 笔退货处理中"@)
        + todo_if(s.draft_recons, "status-progress"@, "对账中"@, " 份对账单待确认"@)
        + todo_if(s.draft_payments, "status-progress"@, "待审批"@, " 笔付款申请待审批"@)
        + todo_if(s.pending_misc, "status-progress"@, "待审批"@, " 笔零星请购待审批"@)
}

/// The line shown when there is nothing to do.
pub open spec fn nothing_to_do() -> (Seq<char>, Seq<char>, Seq<char>, Seq<char>, bool) {
    ("status-completed"@, "无待办"@, "所有采购事项已处理完毕"@, ""@, true)
}

/// The to-do list: the lines of the non-zero figures, or the single line
/// saying there is nothing to do.
pub open spec fn todo_list(s: DashboardStats) -> Seq<(Seq<char>, Seq<char>, Seq<char>, Seq<char>, bool)> {
    if todo_lines(s).len() == 0 {
        seq![nothing_to_do()]
    } else {
        todo_lines(s)
    }
}

fn push_todo(
    v: &mut Vec<TodoItem>,
    n: u64,
    key: &'static str,
    text: &'static str,
    what: &'static str,
)
    ensures
        final(v)@.map_values(|t: TodoItem| todo_view(t)) == old(v)@.map_values(
            |t: TodoItem| todo_view(t),
        ) + todo_if(n, key@, text@, what@),
{
    if n > 0 {
        let mut desc = u64_text(n);
        push_str(&mut desc, what);
        v.push(TodoItem { status_key: key, status_text: text, desc, time: "需处理", last: false });
    }
    assert(final(v)@.map_values(|t: TodoItem| todo_view(t)) =~= old(v)@.map_values(
        |t: TodoItem| todo_view(t),
    ) + todo_if(n, key@, text@, what@));
}

/// The to-do list of the figures.
pub fn todo_items(s: &DashboardStats) -> (r: Vec<TodoItem>)
    ensures
        r@.map_values(|t: TodoItem| todo_view(t)) == todo_list(*s),
{
    let mut v: Vec<TodoItem> = Vec::new();
    push_todo(&mut v, s.pending_quotations, "status-progress", "待比价", " 份采购报价待比价");
    push_todo(&mut v, s.in_progress_orders, "status-draft", "待确认", " 笔采购订单待确认");
    push_todo(&mut v, s.returns_in_progress, "status-info", "退货中", " 笔退货处理中");
    push_todo(&mut v, s.draft_recons, "status-progress", "对账中", " 份对账单待确认");
    push_todo(&mut v, s.draft_payments, "status-progress", "待审批", " 笔付款申请待审批");
    push_todo(&mut v, s.pending_misc, "status-progress", "待审批", " 笔零星请购待审批");
    assert(v@.map_values(|t: TodoItem| todo_view(t)) =~= todo_lines(*s));
    if v.len() == 0 {
        v.push(
            TodoItem {
                status_key: "status-completed",
                status_text: "无待办",
                desc: crate::text::owned("所有采购事项已处理完毕"),
                time: "",
                last: true,
            },
        );
        assert(v@.map_values(|t: TodoItem| todo_view(t)) =~= seq![nothing_to_do()]);
    }
    v
}

/// The overview says there is nothing to do exactly when every figure the
/// to-do list counts is zero; otherwise it lists one line for each non-zero
/// figure.
pub proof fn lemma_nothing_to_do_iff_all_zero(s: DashboardStats)
    ensures
        (todo_list(s) == seq![nothing_to_do()]) <==> (s.pending_quotations == 0
            && s.in_progress_orders == 0 && s.returns_in_progress == 0 && s.draft_recons == 0
            && s.draft_payments == 0 && s.pending_misc == 0),
        todo_lines(s).len() == (if s.pending_quotations > 0 { 1int } else { 0 }) + (if s.in_progress_orders > 0 { 1int } else { 0 })
            + (if s.returns_in_progress > 0 { 1int } else { 0 }) + (if s.draft_recons > 0 { 1int } else { 0 })
            + (if s.draft_payments > 0 { 1int } else { 0 }) + (if s.pending_misc > 0 { 1int } else { 0 }),
{
    let l = todo_lines(s);
    if l.len() > 0 {
        // a listed line is never the closing one
        assert(forall|i: int| 0 <= i < l.len() ==> !(#[trigger] l[i]).4);
        assert(l != seq![nothing_to_do()]) by {
            if l == seq![nothing_to_do()] {
                assert(l[0].4);
            }
        }
    }
}

/// A sequence holds a value exactly when one of two joined parts does.
proof fn lemma_concat_contains<A>(a: Seq<A>, b: Seq<A>, x: A)
    ensures
        (a + b).contains(x) <==> (a.contains(x) || b.contains(x)),
{
    if (a + b).contains(x) {
        let i = choose|i: int| 0 <= i < (a + b).len() && (a + b)[i] == x;
        if i < a.len() {
            assert(a[i] == x);
        } else {
            assert(b[i - a.len()] == x);
        }
    }
    if a.contains(x) {
        let i = choose|i: int| 0 <= i < a.len() && a[i] == x;
        assert((a + b)[i] == x);
    }
    if b.contains(x) {
        let i = choose|i: int| 0 <= i < b.len() && b[i] == x;
        assert((a + b)[a.len() + i] == x);
    }
}

proof fn lemma_todo_if_contains(
    n: u64,
    key: Seq<char>,
    text: Seq<char>,
    what: Seq<char>,
    x: (Seq<char>, Seq<char>, Seq<char>, Seq<char>, bool),
)
    ensures
        todo_if(n, key, text, what).contains(x) <==> (n > 0 && x == (key, text, int_text(n as int) + what,
            "需处理"@, false)),
{
    if n > 0 {
        assert(todo_if(n, key, text, what)[0] == (key, text, int_text(n as int) + what, "需处理"@, false));
    }
}

/// The line of the to-do list holds `x` exactly when the line of one of the
/// figures does.
proof fn lemma_todo_lines_contain(s: DashboardStats, x: (Seq<char>, Seq<char>, Seq<char>, Seq<char>, bool))
    ensures
        todo_list(s).contains(x) <==> (todo_if(s.pending_quotations, "status-progress"@, "待比价"@, " 份采购报价待比价"@).contains(x)
            || todo_if(s.in_progress_orders, "status-draft"@, "待确认"@, " 笔采购订单待确认"@).contains(x)
            || todo_if(s.returns_in_progress, "status-info"@, "退货中"@, " 笔退货处理中"@).contains(x)
            || todo_if(s.draft_recons, "status-progress"@, "对账中"@, " 份对账单待确认"@).contains(x)
            || todo_if(s.draft_payments, "status-progress"@, "待审批"@, " 笔付款申请待审批"@).contains(x)
            || todo_if(s.pending_misc, "status-progress"@, "待审批"@, " 笔零星请购待审批"@).contains(x)) || (todo_lines(s).len()
            == 0 && x == nothing_to_do()),
{
    let p1 = todo_if(s.pending_quotations, "status-progress"@, "待比价"@, " 份采购报价待比价"@);
    let p2 = todo_if(s.in_progress_orders, "status-draft"@, "待确认"@, " 笔采购订单待确认"@);
    let p3 = todo_if(s.returns_in_progress, "status-info"@, "退货中"@, " 笔退货处理中"@);
    let p4 = todo_if(s.draft_recons, "status-progress"@, "对账中"@, " 份对账单待确认"@);
    let p5 = todo_if(s.draft_payments, "status-progress"@, "待审批"@, " 笔付款申请待审批"@);
    let p6 = todo_if(s.pending_misc, "status-progress"@, "待审批"@, " 笔零星请购待审批"@);
    lemma_concat_contains(p1, p2, x);
    lemma_concat_contains(p1 + p2, p3, x);
    lemma_concat_contains(p1 + p2 + p3, p4, x);
    lemma_concat_contains(p1 + p2 + p3 + p4, p5, x);
    lemma_concat_contains(p1 + p2 + p3 + p4 + p5, p6, x);
    if todo_lines(s).len() == 0 {
        assert(!p1.contains(x) && !p2.contains(x) && !p3.contains(x));
        assert(!p4.contains(x) && !p5.contains(x) && !p6.contains(x));
        if x == nothing_to_do() {
            assert(todo_list(s)[0] == x);
        }
    }
}

/// Two counts written before different words of the same length never read
/// the same.
proof fn lemma_suffix_differs(a: int, b: int, u: Seq<char>, v: Seq<char>, k: int)
    requires
        u.len() == v.len(),
        0 <= k < u.len(),
        u[k] != v[k],
    ensures
        int_text(a) + u != int_text(b) + v,
{
    if int_text(a) + u == int_text(b) + v {
        assert((int_text(a) + u).len() == int_text(a).len() + u.len());
        assert((int_text(b) + v).len() == int_text(b).len() + v.len());
        assert(int_text(a).len() == int_text(b).len());
        assert((int_text(a) + u)[int_text(a).len() + k] == u[k]);
        assert((int_text(b) + v)[int_text(b).len() + k] == v[k]);
    }
}

/// Each figure the to-do list counts has a line of its own, which states that
/// figure with its own words: the line is listed exactly when the figure is
/// not zero.
pub proof fn law_todo_line_per_figure(s: DashboardStats)
    ensures
        todo_list(s).contains(("status-progress"@, "待比价"@, int_text(s.pending_quotations as int) + " 份采购报价待比价"@, "需处理"@, false))
            <==> s.pending_quotations > 0,
        todo_list(s).contains(("status-draft"@, "待确认"@, int_text(s.in_progress_orders as int) + " 笔采购订单待确认"@, "需处理"@, false))
            <==> s.in_progress_orders > 0,
        todo_list(s).contains(("status-info"@, "退货中"@, int_text(s.returns_in_progress as int) + " 笔退货处理中"@, "需处理"@, false))
            <==> s.returns_in_progress > 0,
        todo_list(s).contains(("status-progress"@, "对账中"@, int_text(s.draft_recons as int) + " 份对账单待确认"@, "需处理"@, false))
            <==> s.draft_recons > 0,
        todo_list(s).contains(("status-progress"@, "待审批"@, int_text(s.draft_payments as int) + " 笔付款申请待审批"@, "需处理"@, false))
            <==> s.draft_payments > 0,
        todo_list(s).contains(("status-progress"@, "待审批"@, int_text(s.pending_misc as int) + " 笔零星请购待审批"@, "需处理"@, false))
            <==> s.pending_misc > 0,
{
    reveal_strlit(" 份对账单待确认");
    reveal_strlit(" 份采购报价待比价");
    reveal_strlit(" 笔付款申请待审批");
    reveal_strlit(" 笔退货处理中");
    reveal_strlit(" 笔采购订单待确认");
    reveal_strlit(" 笔零星请购待审批");
    reveal_strlit("status-completed");
    reveal_strlit("status-draft");
    reveal_strlit("status-info");
    reveal_strlit("status-progress");
    reveal_strlit("对账中");
    reveal_strlit("待审批");
    reveal_strlit("待比价");
    reveal_strlit("待确认");
    reveal_strlit("无待办");
    reveal_strlit("退货中");
    reveal_strlit("需处理");
    lemma_nothing_to_do_iff_all_zero(s);
    let x_pending_quotations = ("status-progress"@, "待比价"@, int_text(s.pending_quotations as int) + " 份采购报价待比价"@, "需处理"@, false);
    lemma_todo_lines_contain(s, x_pending_quotations);
    let x_in_progress_orders = ("status-draft"@, "待确认"@, int_text(s.in_progress_orders as int) + " 笔采购订单待确认"@, "需处理"@, false);
    lemma_todo_lines_contain(s, x_in_progress_orders);
    let x_returns_in_progress = ("status-info"@, "退货中"@, int_text(s.returns_in_progress as int) + " 笔退货处理中"@, "需处理"@, false);
    lemma_todo_lines_contain(s, x_returns_in_progress);
    let x_draft_recons = ("status-progress"@, "对账中"@, int_text(s.draft_recons as int) + " 份对账单待确认"@, "需处理"@, false);
    lemma_todo_lines_contain(s, x_draft_recons);
    let x_draft_payments = ("status-progress"@, "待审批"@, int_text(s.draft_payments as int) + " 笔付款申请待审批"@, "需处理"@, false);
    lemma_todo_lines_contain(s, x_draft_payments);
    let x_pending_misc = ("status-progress"@, "待审批"@, int_text(s.pending_misc as int) + " 笔零星请购待审批"@, "需处理"@, false);
    lemma_todo_lines_contain(s, x_pending_misc);
    assert("待比价"@[1] != "待确认"@[1] && "待比价"@[0] != "退货中"@[0] && "待比价"@[0] != "对账中"@[0]);
    assert("待比价"@[1] != "待审批"@[1] && "待确认"@[0] != "退货中"@[0] && "待确认"@[0] != "对账中"@[0]);
    assert("待确认"@[1] != "待审批"@[1] && "退货中"@[0] != "对账中"@[0] && "退货中"@[0] != "待审批"@[0]);
    assert("对账中"@[0] != "待审批"@[0]);
    assert("待比价"@ != "待确认"@ && "待比价"@ != "退货中"@ && "待比价"@ != "对账中"@ && "待比价"@ != "待审批"@);
    assert("待确认"@ != "退货中"@ && "待确认"@ != "对账中"@ && "待确认"@ != "待审批"@);
    assert("退货中"@ != "对账中"@ && "退货中"@ != "待审批"@ && "对账中"@ != "待审批"@);
    lemma_suffix_differs(s.draft_payments as int, s.pending_misc as int, " 笔付款申请待审批"@, " 笔零星请购待审批"@, 2);
    lemma_suffix_differs(s.pending_misc as int, s.draft_payments as int, " 笔零星请购待审批"@, " 笔付款申请待审批"@, 2);
    lemma_todo_if_contains(s.pending_quotations, "status-progress"@, "待比价"@, " 份采购报价待比价"@, x_pending_quotations);
    lemma_todo_if_contains(s.in_progress_orders, "status-draft"@, "待确认"@, " 笔采购订单待确认"@, x_pending_quotations);
    lemma_todo_if_contains(s.returns_in_progress, "status-info"@, "退货中"@, " 笔退货处理中"@, x_pending_quotations);
    lemma_todo_if_contains(s.draft_recons, "status-progress"@, "对账中"@, " 份对账单待确认"@, x_pending_quotations);
    lemma_todo_if_contains(s.draft_payments, "status-progress"@, "待审批"@, " 笔付款申请待审批"@, x_pending_quotations);
    lemma_todo_if_contains(s.pending_misc, "status-progress"@, "待审批"@, " 笔零星请购待审批"@, x_pending_quotations);
    lemma_todo_if_contains(s.pending_quotations, "status-progress"@, "待比价"@, " 份采购报价待比价"@, x_in_progress_orders);
    lemma_todo_if_contains(s.in_progress_orders, "status-draft"@, "待确认"@, " 笔采购订单待确认"@, x_in_progress_orders);
    lemma_todo_if_contains(s.returns_in_progress, "status-info"@, "退货中"@, " 笔退货处理中"@, x_in_progress_orders);
    lemma_todo_if_contains(s.draft_recons, "status-progress"@, "对账中"@, " 份对账单待确认"@, x_in_progress_orders);
    lemma_todo_if_contains(s.draft_payments, "status-progress"@, "待审批"@, " 笔付款申请待审批"@, x_in_progress_orders);
    lemma_todo_if_contains(s.pending_misc, "status-progress"@, "待审批"@, " 笔零星请购待审批"@, x_in_progress_orders);
    lemma_todo_if_contains(s.pending_quotations, "status-progress"@, "待比价"@, " 份采购报价待比价"@, x_returns_in_progress);
    lemma_todo_if_contains(s.in_progress_orders, "status-draft"@, "待确认"@, " 笔采购订单待确认"@, x_returns_in_progress);
    lemma_todo_if_contains(s.returns_in_progress, "status-info"@, "退货中"@, " 笔退货处理中"@, x_returns_in_progress);
    lemma_todo_if_contains(s.draft_recons, "status-progress"@, "对账中"@, " 份对账单待确认"@, x_returns_in_progress);
    lemma_todo_if_contains(s.draft_payments, "status-progress"@, "待审批"@, " 笔付款申请待审批"@, x_returns_in_progress);
    lemma_todo_if_contains(s.pending_misc, "status-progress"@, "待审批"@, " 笔零星请购待审批"@, x_returns_in_progress);
    lemma_todo_if_contains(s.pending_quotations, "status-progress"@, "待比价"@, " 份采购报价待比价"@, x_draft_recons);
    lemma_todo_if_contains(s.in_progress_orders, "status-draft"@, "待确认"@, " 笔采购订单待确认"@, x_draft_recons);
    lemma_todo_if_contains(s.returns_in_progress, "status-info"@, "退货中"@, " 笔退货处理中"@, x_draft_recons);
    lemma_todo_if_contains(s.draft_recons, "status-progress"@, "对账中"@, " 份对账单待确认"@, x_draft_recons);
    lemma_todo_if_contains(s.draft_payments, "status-progress"@, "待审批"@, " 笔付款申请待审批"@, x_draft_recons);
    lemma_todo_if_contains(s.pending_misc, "status-progress"@, "待审批"@, " 笔零星请购待审批"@, x_draft_recons);
    lemma_todo_if_contains(s.pending_quotations, "status-progress"@, "待比价"@, " 份采购报价待比价"@, x_draft_payments);
    lemma_todo_if_contains(s.in_progress_orders, "status-draft"@, "待确认"@, " 笔采购订单待确认"@, x_draft_payments);
    lemma_todo_if_contains(s.returns_in_progress, "status-info"@, "退货中"@, " 笔退货处理中"@, x_draft_payments);
    lemma_todo_if_contains(s.draft_recons, "status-progress"@, "对账中"@, " 份对账单待确认"@, x_draft_payments);
    lemma_todo_if_contains(s.draft_payments, "status-progress"@, "待审批"@, " 笔付款申请待审批"@, x_draft_payments);
    lemma_todo_if_contains(s.pending_misc, "status-progress"@, "待审批"@, " 笔零星请购待审批"@, x_draft_payments);
    lemma_todo_if_contains(s.pending_quotations, "status-progress"@, "待比价"@, " 份采购报价待比价"@, x_pending_misc);
    lemma_todo_if_contains(s.in_progress_orders, "status-draft"@, "待确认"@, " 笔采购订单待确认"@, x_pending_misc);
    lemma_todo_if_contains(s.returns_in_progress, "status-info"@, "退货中"@, " 笔退货处理中"@, x_pending_misc);
    lemma_todo_if_contains(s.draft_recons, "status-progress"@, "对账中"@, " 份对账单待确认"@, x_pending_misc);
    lemma_todo_if_contains(s.draft_payments, "status-progress"@, "待审批"@, " 笔付款申请待审批"@, x_pending_misc);
    lemma_todo_if_contains(s.pending_misc, "status-progress"@, "待审批"@, " 笔零星请购待审批"@, x_pending_misc);
}

} // verus!
