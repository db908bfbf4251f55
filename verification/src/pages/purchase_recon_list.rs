//! The purchase reconciliation list: filter, query string, the periods the
//! period select offers, and labels.
use vstd::prelude::*;
use crate::query::{
    lemma_joined_parts, amp_joined, as_deref, int_part, join_amp, opt_i16, opt_i64, opt_string, part_if_some,
    push_int_part, push_part_if_some,
};
use crate::status::PurchaseReconStatus;
use crate::text::{copy_opt_text, nat_text, push_char, push_str, views};

verus! {

/// Query of the reconciliation list.
#[derive(Clone, Debug)]
pub struct PreconQueryParams {
    pub keyword: Option<String>,
    pub status: Option<i16>,
    pub supplier_id: Option<i64>,
    pub period: Option<String>,
    pub page: Option<u32>,
}

/// What the list asks the reconciliation service for.
#[derive(Clone, Debug)]
pub struct PurchaseReconciliationFilter {
    pub supplier_id: Option<i64>,
    pub period: Option<String>,
    pub status: Option<PurchaseReconStatus>,
}

pub fn build_filter(params: &PreconQueryParams) -> (r: PurchaseReconciliationFilter)
    ensures
        r.supplier_id == params.supplier_id,
        opt_string(r.period) == opt_string(params.period),
        r.status == match params.status {
            Some(c) => PurchaseReconStatus::from_code(c),
            None => None,
        },
{
    PurchaseReconciliationFilter {
        supplier_id: params.supplier_id,
        period: copy_opt_text(&params.period),
        status: match params.status {
            Some(c) => PurchaseReconStatus::from_i16(c),
            None => None,
        },
    }
}

/// The list's query string: keyword, state, supplier and period, each when
/// given, joined with `&`.
pub open spec fn precon_query(p: PreconQueryParams) -> Seq<char> {
    amp_joined(
        part_if_some("keyword="@, opt_string(p.keyword)) + int_part("status="@, opt_i16(p.status))
            + int_part("supplier_id="@, opt_i64(p.supplier_id)) + part_if_some(
            "period="@,
            opt_string(p.period),
        ),
    )
}

/// The list's query string is empty exactly when no parameter is given, and
/// a parameter given alone makes the whole string as `key=value`.
pub proof fn law_recon_query_parts(p: PreconQueryParams)
    ensures
        precon_query(p).len() == 0 <==> (p.keyword is None && p.status is None && p.supplier_id is None
            && p.period is None),
        (p.keyword is Some && p.status is None && p.supplier_id is None && p.period is None)
            ==> precon_query(p) == "keyword="@ + (p.keyword->0)@,
        (p.status is Some && p.keyword is None && p.supplier_id is None && p.period is None)
            ==> precon_query(p) == "status="@ + crate::text::int_text((p.status->0) as int),
        (p.supplier_id is Some && p.keyword is None && p.status is None && p.period is None)
            ==> precon_query(p) == "supplier_id="@ + crate::text::int_text((p.supplier_id->0) as int),
        (p.period is Some && p.keyword is None && p.status is None && p.supplier_id is None)
            ==> precon_query(p) == "period="@ + (p.period->0)@,
{
    reveal_strlit("keyword=");
    reveal_strlit("status=");
    reveal_strlit("supplier_id=");
    reveal_strlit("period=");
    let ps = part_if_some("keyword="@, opt_string(p.keyword)) + int_part("status="@, opt_i16(p.status))
        + int_part("supplier_id="@, opt_i64(p.supplier_id)) + part_if_some("period="@, opt_string(p.period));
    assert forall|i: int| 0 <= i < ps.len() implies (#[trigger] ps[i]).len() > 0 by {}
    lemma_joined_parts(ps);
}

pub fn build_query_string(params: &PreconQueryParams) -> (r: String)
    ensures
        r@ == precon_query(*params),
{
    let mut q: Vec<String> = Vec::new();
    push_part_if_some(&mut q, "keyword=", as_deref(&params.keyword));
    push_int_part(&mut q, "status=", match params.status { Some(s) => Some(s as i64), None => None });
    push_int_part(&mut q, "supplier_id=", params.supplier_id);
    push_part_if_some(&mut q, "period=", as_deref(&params.period));
    assert(views(q@) =~= part_if_some("keyword="@, opt_string(params.keyword)) + int_part(
        "status="@,
        opt_i16(params.status),
    ) + int_part("supplier_id="@, opt_i64(params.supplier_id)) + part_if_some(
        "period="@,
        opt_string(params.period),
    ));
    join_amp(&q)
}

/// `n` in decimal, zero-padded to `width` digits.
pub open spec fn padded(n: nat, width: nat) -> Seq<char> {
    let t = nat_text(n);
    if t.len() >= width {
        t
    } else {
        Seq::new((width - t.len()) as nat, |i: int| '0') + t
    }
}

/// A year as `chrono`'s `%Y` writes it: four digits, zero-padded, for years
/// 0 to 9999; otherwise a sign and at least four digits.
pub open spec fn year_text(y: int) -> Seq<char> {
    if 0 <= y <= 9999 {
        padded(y as nat, 4)
    } else if y > 9999 {
        seq!['+'] + padded(y as nat, 4)
    } else {
        seq!['-'] + padded((-y) as nat, 4)
    }
}

/// A month as `%Y-%m` writes it; `index` counts months from year 0
/// (`year * 12 + month - 1`).
pub open spec fn period_text(index: int) -> Seq<char> {
    year_text(index / 12) + seq!['-'] + padded((index % 12 + 1) as nat, 2)
}

fn push_padded(s: &mut String, n: u32, width: u32)
    requires
        width <= 4,
    ensures
        final(s)@ == old(s)@ + padded(n as nat, width as nat),
{
    let t = crate::text::i64_text(n as i64);
    let len = t.as_str().unicode_len();
    proof {
        assert(crate::text::int_text(n as int) == nat_text(n as nat));
    }
    let ghost before = s@;
    if len < width as usize {
        let mut k: usize = 0;
        let pad: usize = width as usize - len;
        while k < pad
            invariant
                k <= pad,
                s@ == before + Seq::new(k as nat, |i: int| '0'),
            decreases pad - k,
        {
            push_char(s, '0');
            k = k + 1;
            assert(s@ =~= before + Seq::new(k as nat, |i: int| '0'));
        }
    }
    push_str(s, t.as_str());
    assert(s@ =~= before + padded(n as nat, width as nat));
}

/// The text of the month with the given index.
pub fn period_of(index: i64) -> (r: String)
    requires
        -120000000 <= index <= 120000000,
    ensures
        r@ == period_text(index as int),
{
    let y: i64 = if index >= 0 { index / 12 } else { -((-index + 11) / 12) };
    let m: i64 = index - y * 12;
    assert(y == index / 12 && m == index % 12) by (nonlinear_arith)
        requires
            y == if index >= 0 { index / 12 } else { -((-index + 11) / 12) },
            m == index - y * 12,
    ;
    let mut s = String::new();
    if 0 <= y && y <= 9999 {
        push_padded(&mut s, y as u32, 4);
    } else if y > 9999 {
        push_char(&mut s, '+');
        push_padded(&mut s, y as u32, 4);
    } else {
        push_char(&mut s, '-');
        push_padded(&mut s, (-y) as u32, 4);
    }
    push_char(&mut s, '-');
    push_padded(&mut s, (m + 1) as u32, 2);
    assert(s@ =~= period_text(index as int));
    s
}

/// The first month `chrono` can hold (January of its first year), as a
/// month index.
pub const FIRST_MONTH_INDEX: i64 = -3145716i64;

/// The periods offered for the month `now` and the `exists.len()` months
/// before it: month `i` back is offered when `exists[i]` says the clock
/// can reach it and `chrono` can hold it.
pub open spec fn periods_of(now: int, exists: Seq<bool>) -> Seq<Seq<char>>
    decreases exists.len(),
{
    if exists.len() == 0 {
        Seq::empty()
    } else {
        let i = exists.len() - 1;
        periods_of(now, exists.drop_last()) + if exists[i] && now - i >= FIRST_MONTH_INDEX {
            seq![period_text(now - i)]
        } else {
            Seq::empty()
        }
    }
}

/// The periods the period select offers: the current month first and then
/// each month before it, one for each entry of `exists`, leaving out a
/// month that the local clock cannot step back to (`exists[i]` false: its
/// local time does not exist or is ambiguous, or is out of range) and any
/// month before the first one `chrono` can hold. `year` and `month` name
/// the current month, a date `chrono` holds.
pub fn generate_periods(year: i32, month: u32, exists: &Vec<bool>) -> (r: Vec<String>)
    requires
        -262143 <= year <= 262142,
        1 <= month <= 12,
        exists@.len() <= 384307168202282325,
    ensures
        views(r@) == periods_of(year * 12 + month - 1, exists@),
{
    let now: i64 = year as i64 * 12 + month as i64 - 1;
    let mut r: Vec<String> = Vec::new();
    let mut i: usize = 0;
    assert(exists@.take(0) =~= Seq::<bool>::empty());
    while i < exists.len()
        invariant
            i <= exists@.len() <= 384307168202282325,
            now == year * 12 + month - 1,
            -262143 <= year <= 262142,
            1 <= month <= 12,
            views(r@) == periods_of(now as int, exists@.take(i as int)),
        decreases exists.len() - i,
    {
        assert(exists@.take(i + 1).drop_last() =~= exists@.take(i as int));
        assert(exists@.take(i + 1)[i as int] == exists@[i as int]);
        let ghost before = r@;
        let idx: i64 = now - i as i64;
        if exists[i] && idx >= FIRST_MONTH_INDEX {
            r.push(period_of(idx));
            assert(views(r@) =~= views(before) + seq![period_text(idx as int)]);
        } else {
            assert(views(r@) =~= views(before) + Seq::<Seq<char>>::empty());
        }
        i = i + 1;
    }
    assert(exists@.take(exists.len() as int) =~= exists@);
    r
}

pub open spec fn list_status_text(s: PurchaseReconStatus) -> (Seq<char>, Seq<char>) {
    match s {
        PurchaseReconStatus::Draft => ("草稿"@, "status-draft"@),
        PurchaseReconStatus::Confirmed => ("已确认"@, "status-confirmed"@),
        PurchaseReconStatus::Settled => ("已结算"@, "status-settled"@),
    }
}

/// Label and style class of a reconciliation state in the list.
pub fn status_label(s: PurchaseReconStatus) -> (r: (&'static str, &'static str))
    ensures
        (r.0@, r.1@) == list_status_text(s),
{
    match s {
        PurchaseReconStatus::Draft => ("草稿", "status-draft"),
        PurchaseReconStatus::Confirmed => ("已确认", "status-confirmed"),
        PurchaseReconStatus::Settled => ("已结算", "status-settled"),
    }
}

} // verus!
