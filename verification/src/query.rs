//! Query strings of the list pages: `key=value` parts joined with `&`.
use vstd::prelude::*;
use crate::text::{int_text, joined, push_i64, push_str, views, join_with};

verus! {

/// The view of an optional string slice.
pub open spec fn opt_str(o: Option<&str>) -> Option<Seq<char>> {
    match o {
        Some(s) => Some(s@),
        None => None,
    }
}

/// The view of an optional string.
pub open spec fn opt_string(o: Option<String>) -> Option<Seq<char>> {
    match o {
        Some(s) => Some(s@),
        None => None,
    }
}

/// The part `key=value` when a value is there.
pub open spec fn part_if_some(key: Seq<char>, v: Option<Seq<char>>) -> Seq<Seq<char>> {
    match v {
        Some(x) => seq![key + x],
        None => Seq::empty(),
    }
}

/// The part `key=value` when a value is there and is not empty.
pub open spec fn part_if_nonempty(key: Seq<char>, v: Option<Seq<char>>) -> Seq<Seq<char>> {
    match v {
        Some(x) => if x.len() > 0 {
            seq![key + x]
        } else {
            Seq::empty()
        },
        None => Seq::empty(),
    }
}

/// The part `key=n` when a number is there.
pub open spec fn int_part(key: Seq<char>, v: Option<int>) -> Seq<Seq<char>> {
    match v {
        Some(n) => seq![key + int_text(n)],
        None => Seq::empty(),
    }
}

pub open spec fn opt_i16(v: Option<i16>) -> Option<int> {
    match v {
        Some(n) => Some(n as int),
        None => None,
    }
}

pub open spec fn opt_i64(v: Option<i64>) -> Option<int> {
    match v {
        Some(n) => Some(n as int),
        None => None,
    }
}

/// The parts joined with `&`.
pub open spec fn amp_joined(parts: Seq<Seq<char>>) -> Seq<char> {
    joined(parts, "&"@)
}

/// Parts that are none of them empty join to an empty text exactly when
/// there are none; a single part joins to itself.
pub(crate) proof fn lemma_joined_parts(ps: Seq<Seq<char>>)
    requires
        forall|i: int| 0 <= i < ps.len() ==> (#[trigger] ps[i]).len() > 0,
    ensures
        amp_joined(ps).len() == 0 <==> ps.len() == 0,
        ps.len() == 1 ==> amp_joined(ps) == ps[0],
    decreases ps.len(),
{
    if ps.len() > 1 {
        lemma_joined_parts(ps.drop_last());
    }
}

/// `key=value`.
pub fn kv(key: &str, value: &str) -> (r: String)
    ensures
        r@ == key@ + value@,
{
    let mut r = String::new();
    push_str(&mut r, key);
    push_str(&mut r, value);
    assert(r@ =~= key@ + value@);
    r
}

/// `key=n` with the number in decimal.
pub fn kv_int(key: &str, v: i64) -> (r: String)
    ensures
        r@ == key@ + int_text(v as int),
{
    let mut r = String::new();
    push_str(&mut r, key);
    push_i64(&mut r, v);
    assert(r@ =~= key@ + int_text(v as int));
    r
}

/// Appends `key=value` to the parts when a value is there.
pub fn push_part_if_some(parts: &mut Vec<String>, key: &str, v: Option<&str>)
    ensures
        views(final(parts)@) == views(old(parts)@) + part_if_some(key@, opt_str(v)),
{
    match v {
        Some(x) => {
            let p = kv(key, x);
            parts.push(p);
        },
        None => {},
    }
    assert(views(final(parts)@) =~= views(old(parts)@) + part_if_some(key@, opt_str(v)));
}

/// Appends `key=value` to the parts when a value is there and is not empty.
pub fn push_part_if_nonempty(parts: &mut Vec<String>, key: &str, v: Option<&str>)
    ensures
        views(final(parts)@) == views(old(parts)@) + part_if_nonempty(key@, opt_str(v)),
{
    match v {
        Some(x) => {
            if x.unicode_len() > 0 {
                let p = kv(key, x);
                parts.push(p);
            }
        },
        None => {},
    }
    assert(views(final(parts)@) =~= views(old(parts)@) + part_if_nonempty(key@, opt_str(v)));
}

/// Appends `key=n` to the parts when a number is there.
pub fn push_int_part(parts: &mut Vec<String>, key: &str, v: Option<i64>)
    ensures
        views(final(parts)@) == views(old(parts)@) + int_part(key@, opt_i64(v)),
{
    match v {
        Some(n) => {
            let p = kv_int(key, n);
            parts.push(p);
        },
        None => {},
    }
    assert(views(final(parts)@) =~= views(old(parts)@) + int_part(key@, opt_i64(v)));
}

/// The parts joined with `&`.
pub fn join_amp(parts: &Vec<String>) -> (r: String)
    ensures
        r@ == amp_joined(views(parts@)),
{
    join_with(parts, "&")
}

/// The view of an optional string field, as a string slice.
pub fn as_deref(o: &Option<String>) -> (r: Option<&str>)
    ensures
        opt_str(r) == opt_string(*o),
{
    match o {
        Some(s) => Some(s.as_str()),
        None => None,
    }
}

} // verus!
