//! The purchase demand pool: labels, urgency hints, the due-date filter and
//! the query strings of its two views.
use vstd::prelude::*;
use crate::date::valid_day;
use crate::query::{amp_joined, opt_str, part_if_nonempty, push_part_if_nonempty, join_amp};
use crate::text::{i64_text, int_text, push_str, same_text, views};

verus! {

/// Query of the demand pool list.
#[derive(Clone, Debug)]
pub struct DemandPoolQueryParams {
    pub view: Option<String>,
    pub keyword: Option<String>,
    pub date_filter: Option<String>,
    pub page: Option<u32>,
}

/// Query of the demand rows of one product.
#[derive(Clone, Copy, Debug)]
pub struct DemandRowQueryParams {
    pub product_id: i64,
}

/// Label and style class of a demand state code.
pub open spec fn demand_status_text(s: i16) -> (Seq<char>, Seq<char>) {
    if s == 1 {
        ("待处理"@, "status-draft"@)
    } else if s == 2 {
        ("处理中"@, "status-confirmed"@)
    } else if s == 3 {
        ("已完成"@, "status-success"@)
    } else if s == 4 {
        ("已取消"@, "status-cancelled"@)
    } else {
        ("未知"@, "status-draft"@)
    }
}

pub fn demand_status_label(s: i16) -> (r: (&'static str, &'static str))
    ensures
        (r.0@, r.1@) == demand_status_text(s),
{
    match s {
        1 => ("待处理", "status-draft"),
        2 => ("处理中", "status-confirmed"),
        3 => ("已完成", "status-success"),
        4 => ("已取消", "status-cancelled"),
        _ => ("未知", "status-draft"),
    }
}

/// Label and inline style of a demand priority.
pub open spec fn priority_text(p: i32) -> (Seq<char>, Seq<char>) {
    if p == 1 {
        ("紧急"@, "background:#fee2e2;color:#dc2626"@)
    } else if p == 2 {
        ("高"@, "background:#fef3c7;color:#d97706"@)
    } else if p == 3 {
        ("中"@, "background:#f1f5f9;color:#475569"@)
    } else if p == 4 {
        ("低"@, "background:#f1f5f9;color:#94a3b8"@)
    } else {
        ("—"@, "background:#f1f5f9;color:#94a3b8"@)
    }
}

pub fn priority_chip(p: i32) -> (r: (&'static str, &'static str))
    ensures
        (r.0@, r.1@) == priority_text(p),
{
    match p {
        1 => ("紧急", "background:#fee2e2;color:#dc2626"),
        2 => ("高", "background:#fef3c7;color:#d97706"),
        3 => ("中", "background:#f1f5f9;color:#475569"),
        4 => ("低", "background:#f1f5f9;color:#94a3b8"),
        _ => ("—", "background:#f1f5f9;color:#94a3b8"),
    }
}

/// The hint under a material's earliest required date, `today` being the
/// current day: overdue, due today, due within three days (danger) or
/// within seven (warning); none further out.
pub open spec fn urgency_text(diff: int) -> Option<(Seq<char>, Seq<char>)> {
    if diff < 0 {
        Some(("已逾期"@ + int_text(-diff) + "天"@, "text-danger"@))
    } else if diff == 0 {
        Some(("今天到期"@, "text-danger"@))
    } else if diff <= 3 {
        Some((int_text(diff) + "天后到期"@, "text-danger"@))
    } else if diff <= 7 {
        Some((int_text(diff) + "天后到期"@, "text-warn"@))
    } else {
        None
    }
}

pub open spec fn hint_view(h: Option<(String, &'static str)>) -> Option<(Seq<char>, Seq<char>)> {
    match h {
        Some((t, c)) => Some((t@, c@)),
        None => None,
    }
}

pub fn urgency_hint(earliest: Option<i32>, today: i32) -> (r: Option<(String, &'static str)>)
    ensures
        hint_view(r) == match earliest {
            Some(d) => urgency_text(d - today),
            None => None,
        },
{
    match earliest {
        None => None,
        Some(d) => {
            let diff: i64 = d as i64 - today as i64;
            if diff < 0 {
                let mut t = String::new();
                push_str(&mut t, "已逾期");
                crate::text::push_i64(&mut t, -diff);
                push_str(&mut t, "天");
                assert(t@ =~= "已逾期"@ + int_text(-diff) + "天"@);
                Some((t, "text-danger"))
            } else if diff == 0 {
                Some((crate::text::owned("今天到期"), "text-danger"))
            } else {
                let mut t = i64_text(diff);
                push_str(&mut t, "天后到期");
                if diff <= 3 {
                    Some((t, "text-danger"))
                } else if diff <= 7 {
                    Some((t, "text-warn"))
                } else {
                    None
                }
            }
        },
    }
}

/// The four icons a material row can show.
#[derive(PartialEq, Eq, Structural, Clone, Copy, Debug)]
pub enum MaterialGlyph {
    Tool,
    ClipboardDocument,
    Cube,
    Activity,
}

/// Which of the four icon styles a product id picks: its remainder by four,
/// taken as Rust's `%` does (negative ids give a negative remainder, and
/// those, cast to `u8`, fall to the last style).
pub open spec fn icon_variant(product_id: i64) -> int {
    let rem: int = if product_id >= 0 {
        (product_id as int) % 4
    } else {
        -((-(product_id as int)) % 4)
    };
    if 0 <= rem <= 2 {
        rem
    } else {
        3
    }
}

pub open spec fn material_icon_spec(product_id: i64) -> (Seq<char>, Seq<char>, MaterialGlyph) {
    let v = icon_variant(product_id);
    if v == 0 {
        ("#ede9fe"@, "#7c3aed"@, MaterialGlyph::Tool)
    } else if v == 1 {
        ("#dbeafe"@, "var(--accent)"@, MaterialGlyph::ClipboardDocument)
    } else if v == 2 {
        ("#fef3c7"@, "var(--warn)"@, MaterialGlyph::Cube)
    } else {
        ("#dcfce7"@, "var(--success)"@, MaterialGlyph::Activity)
    }
}

/// Background, foreground and icon of a material row.
pub fn material_icon(product_id: i64) -> (r: (&'static str, &'static str, MaterialGlyph))
    ensures
        (r.0@, r.1@, r.2) == material_icon_spec(product_id),
{
    let rem: i64 = product_id % 4;
    if rem == 0 {
        ("#ede9fe", "#7c3aed", MaterialGlyph::Tool)
    } else if rem == 1 {
        ("#dbeafe", "var(--accent)", MaterialGlyph::ClipboardDocument)
    } else if rem == 2 {
        ("#fef3c7", "var(--warn)", MaterialGlyph::Cube)
    } else {
        ("#dcfce7", "var(--success)", MaterialGlyph::Activity)
    }
}

/// The query string of the material view: keyword and date filter, each
/// when given and not empty, joined with `&`.
pub open spec fn material_query(keyword: Option<Seq<char>>, date_filter: Option<Seq<char>>) -> Seq<
    char,
> {
    amp_joined(
        part_if_nonempty("keyword="@, keyword) + part_if_nonempty("date_filter="@, date_filter),
    )
}

pub fn material_query_string(keyword: Option<&str>, date_filter: Option<&str>) -> (r: String)
    ensures
        r@ == material_query(opt_str(keyword), opt_str(date_filter)),
{
    let mut q: Vec<String> = Vec::new();
    push_part_if_nonempty(&mut q, "keyword=", keyword);
    push_part_if_nonempty(&mut q, "date_filter=", date_filter);
    assert(views(q@) =~= part_if_nonempty("keyword="@, opt_str(keyword)) + part_if_nonempty(
        "date_filter="@,
        opt_str(date_filter),
    ));
    join_amp(&q)
}

/// The query string of the detail view: `view=detail` first, then as the
/// material view's.
pub open spec fn detail_query(keyword: Option<Seq<char>>, date_filter: Option<Seq<char>>) -> Seq<
    char,
> {
    amp_joined(
        seq!["view=detail"@] + part_if_nonempty("keyword="@, keyword) + part_if_nonempty(
            "date_filter="@,
            date_filter,
        ),
    )
}

pub fn detail_query_string(keyword: Option<&str>, date_filter: Option<&str>) -> (r: String)
    ensures
        r@ == detail_query(opt_str(keyword), opt_str(date_filter)),
{
    let mut q: Vec<String> = Vec::new();
    q.push(crate::text::owned("view=detail"));
    push_part_if_nonempty(&mut q, "keyword=", keyword);
    push_part_if_nonempty(&mut q, "date_filter=", date_filter);
    assert(views(q@) =~= seq!["view=detail"@] + part_if_nonempty("keyword="@, opt_str(keyword))
        + part_if_nonempty("date_filter="@, opt_str(date_filter)));
    join_amp(&q)
}

/// The required-date bounds that a `date_filter` value asks for: due within
/// 3, 7 or 30 days, or already overdue (due by today); no bounds otherwise.
pub open spec fn due_bounds(date_filter: Option<Seq<char>>, today: int) -> (Option<int>, Option<int>) {
    match date_filter {
        Some(f) => if f == "3days"@ {
            (None, Some(today + 3))
        } else if f == "7days"@ {
            (None, Some(today + 7))
        } else if f == "30days"@ {
            (None, Some(today + 30))
        } else if f == "overdue"@ {
            (None, Some(today))
        } else {
            (None, None)
        },
        None => (None, None),
    }
}

pub open spec fn opt_day(d: Option<i32>) -> Option<int> {
    match d {
        Some(x) => Some(x as int),
        None => None,
    }
}

/// The `(start, end)` required-date bounds of the date filter.
pub fn due_date_range(date_filter: Option<&str>, today: i32) -> (r: (Option<i32>, Option<i32>))
    requires
        valid_day(today as int),
        valid_day(today + 30),
    ensures
        (opt_day(r.0), opt_day(r.1)) == due_bounds(opt_str(date_filter), today as int),
{
    match date_filter {
        Some(f) => {
            if same_text(f, "3days") {
                (None, Some(today + 3))
            } else if same_text(f, "7days") {
                (None, Some(today + 7))
            } else if same_text(f, "30days") {
                (None, Some(today + 30))
            } else if same_text(f, "overdue") {
                (None, Some(today))
            } else {
                (None, None)
            }
        },
        None => (None, None),
    }
}

/// The due-date filters bound only the end of the required-date range: `Ndays`
/// asks for what is due within N days of today (3, 7 or 30), so each longer
/// window ends exactly that many days later, and `overdue` for what is due by
/// today; no filter, or any other text, leaves both ends open.
pub proof fn law_due_windows(today: int, other: Seq<char>)
    requires
        other != "3days"@,
        other != "7days"@,
        other != "30days"@,
        other != "overdue"@,
    ensures
        due_bounds(Some("3days"@), today) == (None::<int>, Some(today + 3)),
        due_bounds(Some("7days"@), today) == (None::<int>, Some(today + 7)),
        due_bounds(Some("30days"@), today) == (None::<int>, Some(today + 30)),
        due_bounds(Some("overdue"@), today) == (None::<int>, Some(today)),
        due_bounds(Some(other), today) == (None::<int>, None::<int>),
        due_bounds(None, today) == (None::<int>, None::<int>),
        forall|f: Seq<char>| (#[trigger] due_bounds(Some(f), today)).0 is None,
{
    reveal_strlit("3days");
    reveal_strlit("7days");
    reveal_strlit("30days");
    reveal_strlit("overdue");
    assert("7days"@[0] != "3days"@[0]);
    assert("30days"@.len() != "3days"@.len());
    assert("30days"@.len() != "7days"@.len());
    assert("overdue"@.len() != "3days"@.len());
    assert("overdue"@.len() != "7days"@.len());
    assert("overdue"@.len() != "30days"@.len());
}

/// Whether the list shows the detail view (`view=detail`); the material view
/// otherwise.
pub fn is_detail_view(view: Option<&str>) -> (r: bool)
    ensures
        r == (opt_str(view) == Some("detail"@)),
{
    match view {
        Some(v) => same_text(v, "detail"),
        None => false,
    }
}

/// A text joined after a first part: the first part, then `&` and the rest
/// when there is any.
proof fn lemma_joined_after_first(a: Seq<char>, ps: Seq<Seq<char>>)
    ensures
        amp_joined(seq![a] + ps) == if ps.len() == 0 {
            a
        } else {
            a + "&"@ + amp_joined(ps)
        },
    decreases ps.len(),
{
    let all = seq![a] + ps;
    if ps.len() == 0 {
        assert(all =~= seq![a]);
    } else {
        assert(all.drop_last() =~= seq![a] + ps.drop_last());
        assert(all.last() == ps.last());
        lemma_joined_after_first(a, ps.drop_last());
        if ps.len() > 1 {
            assert(a + "&"@ + amp_joined(ps.drop_last()) + "&"@ + ps.last() =~= a + "&"@ + (
            amp_joined(ps.drop_last()) + "&"@ + ps.last()));
        } else {
            assert(ps.drop_last().len() == 0);
            assert(amp_joined(ps) == ps[0]);
        }
    }
}

/// The detail view's query string is the material view's with `view=detail`
/// in front: alone when the material query is empty, else followed by `&`
/// and the material query.
pub proof fn lemma_detail_query_extends_material(keyword: Option<Seq<char>>, date_filter: Option<Seq<char>>)
    ensures
        detail_query(keyword, date_filter) == if material_query(keyword, date_filter).len() == 0 {
            "view=detail"@
        } else {
            "view=detail"@ + "&"@ + material_query(keyword, date_filter)
        },
{
    let ps = part_if_nonempty("keyword="@, keyword) + part_if_nonempty("date_filter="@, date_filter);
    assert(seq!["view=detail"@] + part_if_nonempty("keyword="@, keyword) + part_if_nonempty(
        "date_filter="@,
        date_filter,
    ) =~= seq!["view=detail"@] + ps);
    lemma_joined_after_first("view=detail"@, ps);
    if ps.len() > 0 {
        assert(material_query(keyword, date_filter).len() > 0) by {
            assert(ps[0].len() > 0) by {
                reveal_strlit("keyword=");
                reveal_strlit("date_filter=");
            }
            lemma_joined_nonempty(ps);
        }
    } else {
        assert(material_query(keyword, date_filter).len() == 0);
    }
}

/// Joined parts whose first part is not empty are not empty.
proof fn lemma_joined_nonempty(ps: Seq<Seq<char>>)
    requires
        ps.len() > 0,
        ps[0].len() > 0,
    ensures
        amp_joined(ps).len() > 0,
    decreases ps.len(),
{
    if ps.len() > 1 {
        lemma_joined_nonempty(ps.drop_last());
    }
}

} // verus!
