//! Reading form fields, and the errors a form submission is answered with.
use vstd::prelude::*;
use crate::date::{parse_ymd, ymd_parse, valid_day};
use crate::decimal::{decimal_parse, parse_decimal, Dec};
use crate::query::opt_string;
use crate::text::{i64_value, int_text, owned, parse_i64_str, push_i64, push_str};

verus! {

/// Field errors of a form that is shown again: the error of the whole form
/// (`__all__`) and those of the supplier and validity fields.
#[derive(Clone, Debug)]
pub struct FormErrors {
    pub all: Option<String>,
    pub supplier_id: Option<String>,
    pub valid_until: Option<String>,
}

impl FormErrors {
    pub open spec fn view3(&self) -> (Option<Seq<char>>, Option<Seq<char>>, Option<Seq<char>>) {
        (opt_string(self.all), opt_string(self.supplier_id), opt_string(self.valid_until))
    }

    pub open spec fn has_errors(&self) -> bool {
        self.all is Some || self.supplier_id is Some || self.valid_until is Some
    }

    pub fn new() -> (r: FormErrors)
        ensures
            r.view3() == (None::<Seq<char>>, None::<Seq<char>>, None::<Seq<char>>),
    {
        FormErrors { all: None, supplier_id: None, valid_until: None }
    }

    pub fn is_empty(&self) -> (b: bool)
        ensures
            b == !self.has_errors(),
    {
        self.all.is_none() && self.supplier_id.is_none() && self.valid_until.is_none()
    }
}

/// Why a submission is refused: invalid input, or a business rule.
#[derive(Clone, Debug)]
pub enum Rejection {
    Validation(String),
    BusinessRule(String),
}

impl Rejection {
    pub open spec fn message(&self) -> Seq<char> {
        match self {
            Rejection::Validation(m) => m@,
            Rejection::BusinessRule(m) => m@,
        }
    }

    pub open spec fn is_validation(&self) -> bool {
        self is Validation
    }
}

/// A refusal for invalid input with the given text.
pub fn invalid(m: &str) -> (r: Rejection)
    ensures
        r is Validation,
        r.message() == m@,
{
    Rejection::Validation(owned(m))
}

/// A refusal for invalid input: a fixed text followed by another.
pub fn invalid_with(m: &str, detail: &str) -> (r: Rejection)
    ensures
        r is Validation,
        r.message() == m@ + detail@,
{
    let mut s = owned(m);
    push_str(&mut s, detail);
    Rejection::Validation(s)
}

/// `第{line}行: {what}`: an error of one line of a form.
pub open spec fn line_message(line: int, what: Seq<char>) -> Seq<char> {
    "第"@ + int_text(line) + "行: "@ + what
}

pub fn line_error(line: i32, what: &str) -> (r: String)
    ensures
        r@ == line_message(line as int, what@),
{
    let mut s = owned("第");
    push_i64(&mut s, line as i64);
    push_str(&mut s, "行: ");
    push_str(&mut s, what);
    s
}

/// `第 {line} 行{what}`: the same, as the edit forms write it.
pub open spec fn spaced_line_message(line: int, what: Seq<char>) -> Seq<char> {
    "第 "@ + int_text(line) + " 行"@ + what
}

pub fn spaced_line_error(line: i64, what: &str) -> (r: String)
    ensures
        r@ == spaced_line_message(line as int, what@),
{
    let mut s = owned("第 ");
    push_i64(&mut s, line);
    push_str(&mut s, " 行");
    push_str(&mut s, what);
    s
}

// ── Reading fields ──

/// The decimal a text holds, or zero (`parse().unwrap_or(ZERO)`).
pub open spec fn dec_or_zero(s: Seq<char>) -> (i128, u32) {
    match decimal_parse(s) {
        Some(p) => p,
        None => (0i128, 0u32),
    }
}

pub fn parse_dec_or_zero(s: &str) -> (r: Dec)
    ensures
        r.parts() == dec_or_zero(s@),
        r.wf(),
{
    match parse_decimal(s) {
        Some(d) => d,
        None => Dec::zero(),
    }
}

/// An optional decimal field: its value when given and readable, else zero.
pub open spec fn opt_dec_or_zero(o: Option<Seq<char>>) -> (i128, u32) {
    match o {
        Some(s) => dec_or_zero(s),
        None => (0i128, 0u32),
    }
}

pub fn parse_opt_dec_or_zero(o: &Option<String>) -> (r: Dec)
    ensures
        r.parts() == opt_dec_or_zero(opt_string(*o)),
        r.wf(),
{
    match o {
        Some(s) => parse_dec_or_zero(s.as_str()),
        None => Dec::zero(),
    }
}

/// An optional decimal field read when given and readable
/// (`and_then(|s| s.parse().ok())`).
pub open spec fn opt_dec(o: Option<Seq<char>>) -> Option<(i128, u32)> {
    match o {
        Some(s) => decimal_parse(s),
        None => None,
    }
}

pub fn parse_opt_dec(o: &Option<String>) -> (r: Option<Dec>)
    ensures
        crate::decimal::opt_parts(r) == opt_dec(opt_string(*o)),
        crate::decimal::opt_wf(r),
{
    match o {
        Some(s) => parse_decimal(s.as_str()),
        None => None,
    }
}

/// The id a text holds, or 0 (`parse().unwrap_or(0)`).
pub open spec fn id_or_zero(s: Seq<char>) -> i64 {
    match i64_value(s) {
        Some(v) => v,
        None => 0,
    }
}

pub fn parse_id_or_zero(s: &str) -> (r: i64)
    ensures
        r == id_or_zero(s@),
{
    match parse_i64_str(s) {
        Some(v) => v,
        None => 0,
    }
}

/// An optional id field read when given and readable.
pub open spec fn opt_id(o: Option<Seq<char>>) -> Option<i64> {
    match o {
        Some(s) => i64_value(s),
        None => None,
    }
}

pub fn parse_opt_id(o: &Option<String>) -> (r: Option<i64>)
    ensures
        r == opt_id(opt_string(*o)),
{
    match o {
        Some(s) => parse_i64_str(s.as_str()),
        None => None,
    }
}

/// An optional id field read when given, readable and positive.
pub open spec fn positive_id(o: Option<Seq<char>>) -> Option<i64> {
    match opt_id(o) {
        Some(v) => if v > 0 {
            Some(v)
        } else {
            None
        },
        None => None,
    }
}

pub fn parse_positive_id(o: &Option<String>) -> (r: Option<i64>)
    ensures
        r == positive_id(opt_string(*o)),
{
    match parse_opt_id(o) {
        Some(v) => if v > 0 {
            Some(v)
        } else {
            None
        },
        None => None,
    }
}

/// An optional id field read when given, not empty and readable
/// (`filter(|s| !s.is_empty()).and_then(|s| s.parse().ok())`).
pub open spec fn nonempty_id(o: Option<Seq<char>>) -> Option<i64> {
    match o {
        Some(s) => if s.len() > 0 {
            i64_value(s)
        } else {
            None
        },
        None => None,
    }
}

pub fn parse_nonempty_id(o: &Option<String>) -> (r: Option<i64>)
    ensures
        r == nonempty_id(opt_string(*o)),
{
    match o {
        Some(s) => if s.as_str().unicode_len() > 0 {
            parse_i64_str(s.as_str())
        } else {
            None
        },
        None => None,
    }
}

/// An optional date field read when given, not empty and readable as
/// `%Y-%m-%d`; an unreadable date counts as none.
pub open spec fn nonempty_ymd(o: Option<Seq<char>>) -> Option<i32> {
    match o {
        Some(s) => if s.len() > 0 {
            match ymd_parse(s) {
                Ok(d) => Some(d),
                Err(_) => None,
            }
        } else {
            None
        },
        None => None,
    }
}

pub fn parse_nonempty_ymd(o: &Option<String>) -> (r: Option<i32>)
    ensures
        r == nonempty_ymd(opt_string(*o)),
        r is Some ==> valid_day(r->0 as int),
{
    match o {
        Some(s) => if s.as_str().unicode_len() > 0 {
            match parse_ymd(s.as_str()) {
                Ok(d) => Some(d),
                Err(_) => None,
            }
        } else {
            None
        },
        None => None,
    }
}

/// An optional date field that must be readable when given and not empty:
/// `Ok(None)` when absent or empty, `Ok(Some(day))` when readable, and the
/// parse error's text otherwise.
pub open spec fn checked_ymd(o: Option<Seq<char>>) -> Result<Option<i32>, Seq<char>> {
    match o {
        Some(s) => if s.len() > 0 {
            match ymd_parse(s) {
                Ok(d) => Ok(Some(d)),
                Err(e) => Err(e),
            }
        } else {
            Ok(None)
        },
        None => Ok(None),
    }
}

pub open spec fn checked_ymd_view(r: Result<Option<i32>, String>) -> Result<Option<i32>, Seq<char>> {
    match r {
        Ok(d) => Ok(d),
        Err(e) => Err(e@),
    }
}

pub fn parse_checked_ymd(o: &Option<String>) -> (r: Result<Option<i32>, String>)
    ensures
        checked_ymd_view(r) == checked_ymd(opt_string(*o)),
{
    match o {
        Some(s) => if s.as_str().unicode_len() > 0 {
            match parse_ymd(s.as_str()) {
                Ok(d) => Ok(Some(d)),
                Err(e) => Err(e),
            }
        } else {
            Ok(None)
        },
        None => Ok(None),
    }
}

/// A text field, or the empty text (`unwrap_or_default`).
pub fn text_or_empty(o: &Option<String>) -> (r: String)
    ensures
        r@ == match opt_string(*o) {
            Some(s) => s,
            None => Seq::<char>::empty(),
        },
{
    match o {
        Some(s) => owned(s.as_str()),
        None => String::new(),
    }
}

/// A text field, or a given default.
pub fn text_or(o: &Option<String>, default: &str) -> (r: String)
    ensures
        r@ == match opt_string(*o) {
            Some(s) => s,
            None => default@,
        },
{
    match o {
        Some(s) => owned(s.as_str()),
        None => owned(default),
    }
}

/// A copy of an optional text field.
pub fn copy_opt(o: &Option<String>) -> (r: Option<String>)
    ensures
        opt_string(r) == opt_string(*o),
{
    match o {
        Some(s) => Some(owned(s.as_str())),
        None => None,
    }
}

// ── Values a form starts with ──

/// The value a form field starts with: a text sent back by the user, a
/// day (written as `%Y-%m-%d`), or nothing.
#[derive(Clone, Debug)]
pub enum FieldValue {
    Text(String),
    Day(i32),
    Empty,
}

impl FieldValue {
    pub open spec fn text_of(&self) -> Option<Seq<char>> {
        match self {
            FieldValue::Text(t) => Some(t@),
            _ => None,
        }
    }
}

/// A date field's default: the day the clock gave, or nothing when it gave
/// none (`map(format).unwrap_or_default()`).
pub fn default_date(d: Option<i32>) -> (r: FieldValue)
    ensures
        match d {
            Some(x) => r matches FieldValue::Day(y) && y == x,
            None => r is Empty,
        },
{
    match d {
        Some(x) => FieldValue::Day(x),
        None => FieldValue::Empty,
    }
}

/// The two dates a new document's form starts with: today, and a later day
/// (delivery or validity) as the local clock reached it, if it did.
pub fn form_dates(today: i32, later: Option<i32>) -> (r: (FieldValue, FieldValue))
    ensures
        r.0 matches FieldValue::Day(t) && t == today,
        match later {
            Some(x) => r.1 matches FieldValue::Day(y) && y == x,
            None => r.1 is Empty,
        },
{
    (FieldValue::Day(today), default_date(later))
}

} // verus!
