//! Character-level text handling: splitting on a separator, trimming
//! white space, and reading and writing decimal integers.
use vstd::prelude::*;
use vstd::string::*;

verus! {

/// Appends one character to a string (std's `String::push`).
#[verifier::external_body]
pub(crate) fn push_char(s: &mut String, c: char)
    ensures
        final(s)@ == old(s)@.push(c),
{
    s.push(c);
}

/// The characters of a string slice, in order.
pub fn chars_of(s: &str) -> (r: Vec<char>)
    ensures
        r@ == s@,
{
    let n = s.unicode_len();
    let mut r: Vec<char> = Vec::new();
    let mut i: usize = 0;
    while i < n
        invariant
            n == s@.len(),
            i <= n,
            r@ == s@.take(i as int),
        decreases n - i,
    {
        let c = s.get_char(i);
        r.push(c);
        i = i + 1;
        assert(r@ =~= s@.take(i as int));
    }
    assert(r@ =~= s@);
    r
}

/// A string holding the given characters.
pub fn string_of(cs: &Vec<char>) -> (r: String)
    ensures
        r@ == cs@,
{
    let mut r = String::new();
    let mut i: usize = 0;
    while i < cs.len()
        invariant
            i <= cs.len(),
            r@ == cs@.take(i as int),
        decreases cs.len() - i,
    {
        push_char(&mut r, cs[i]);
        i = i + 1;
        assert(r@ =~= cs@.take(i as int));
    }
    assert(r@ =~= cs@);
    r
}

} // verus!

verus! {

// ── White space and trimming ──

/// Unicode White_Space, the set that `char::is_whitespace` tests.
pub open spec fn is_ws(c: char) -> bool {
    let u = c as u32;
    ||| 0x9 <= u <= 0xD
    ||| u == 0x20
    ||| u == 0x85
    ||| u == 0xA0
    ||| u == 0x1680
    ||| 0x2000 <= u <= 0x200A
    ||| u == 0x2028
    ||| u == 0x2029
    ||| u == 0x202F
    ||| u == 0x205F
    ||| u == 0x3000
}

/// The text with its leading white space removed.
pub open spec fn trim_start(s: Seq<char>) -> Seq<char>
    decreases s.len(),
{
    if s.len() > 0 && is_ws(s[0]) {
        trim_start(s.drop_first())
    } else {
        s
    }
}

/// The text with its trailing white space removed.
pub open spec fn trim_end(s: Seq<char>) -> Seq<char>
    decreases s.len(),
{
    if s.len() > 0 && is_ws(s.last()) {
        trim_end(s.drop_last())
    } else {
        s
    }
}

/// The text with white space removed at both ends (what `str::trim` gives).
pub open spec fn trim(s: Seq<char>) -> Seq<char> {
    trim_end(trim_start(s))
}

pub fn is_whitespace(c: char) -> (b: bool)
    ensures
        b == is_ws(c),
{
    let u = c as u32;
    (0x9 <= u && u <= 0xD) || u == 0x20 || u == 0x85 || u == 0xA0 || u == 0x1680 || (0x2000
        <= u && u <= 0x200A) || u == 0x2028 || u == 0x2029 || u == 0x202F || u == 0x205F || u
        == 0x3000
}

/// The characters between the first and the last that are not white space.
pub fn trim_chars(s: &Vec<char>) -> (r: Vec<char>)
    ensures
        r@ == trim(s@),
{
    let n = s.len();
    let mut a: usize = 0;
    assert(s@.skip(0) =~= s@);
    while a < n && is_whitespace(s[a])
        invariant
            n == s@.len(),
            a <= n,
            trim_start(s@.skip(a as int)) == trim_start(s@),
        decreases n - a,
    {
        assert(s@.skip(a as int).drop_first() =~= s@.skip(a + 1));
        a = a + 1;
    }
    let ghost t = s@.skip(a as int);
    assert(trim_start(s@) == t);
    let mut b: usize = n;
    while b > a && is_whitespace(s[b - 1])
        invariant
            n == s@.len(),
            a <= b <= n,
            t == s@.skip(a as int),
            trim_end(s@.subrange(a as int, b as int)) == trim_end(t),
        decreases b,
    {
        assert(s@.subrange(a as int, b as int).drop_last() =~= s@.subrange(a as int, b - 1));
        b = b - 1;
    }
    assert(s@.skip(a as int) =~= s@.subrange(a as int, n as int));
    let mut r: Vec<char> = Vec::new();
    let mut i: usize = a;
    while i < b
        invariant
            a <= i <= b <= n,
            n == s@.len(),
            r@ == s@.subrange(a as int, i as int),
        decreases b - i,
    {
        r.push(s[i]);
        i = i + 1;
        assert(r@ =~= s@.subrange(a as int, i as int));
    }
    r
}

} // verus!

verus! {

// ── Decimal integers ──

pub open spec fn is_digit(c: char) -> bool {
    48 <= (c as u32) <= 57
}

pub open spec fn digit_value(c: char) -> int {
    (c as u32) - 48
}

pub open spec fn all_digits(d: Seq<char>) -> bool {
    forall|i: int| 0 <= i < d.len() ==> #[trigger] is_digit(d[i])
}

/// The number that a run of decimal digits denotes.
pub open spec fn digits_value(d: Seq<char>) -> int
    decreases d.len(),
{
    if d.len() == 0 {
        0
    } else {
        digits_value(d.drop_last()) * 10 + digit_value(d.last())
    }
}

/// The integer that a text denotes as Rust's integer `FromStr` reads it: an
/// optional `+` or `-` followed by one or more decimal digits, and nothing else.
pub open spec fn int_value(s: Seq<char>) -> Option<int> {
    let neg = s.len() > 0 && s[0] == '-';
    let signed = s.len() > 0 && (s[0] == '-' || s[0] == '+');
    let d = if signed { s.drop_first() } else { s };
    if d.len() == 0 || !all_digits(d) {
        None
    } else if neg {
        Some(-digits_value(d))
    } else {
        Some(digits_value(d))
    }
}

/// What `str::parse::<i64>` gives: the value when it is one and fits.
pub open spec fn i64_value(s: Seq<char>) -> Option<i64> {
    match int_value(s) {
        Some(v) => if i64::MIN <= v <= i64::MAX {
            Some(v as i64)
        } else {
            None
        },
        None => None,
    }
}

/// What `str::parse::<i32>` gives.
pub open spec fn i32_value(s: Seq<char>) -> Option<i32> {
    match int_value(s) {
        Some(v) => if i32::MIN <= v <= i32::MAX {
            Some(v as i32)
        } else {
            None
        },
        None => None,
    }
}

pub open spec fn digit_char(d: nat) -> char {
    ((d % 10) + 48) as char
}

/// The decimal digits of a natural number, most significant first, without
/// leading zeros.
pub open spec fn nat_text(n: nat) -> Seq<char>
    decreases n,
{
    if n < 10 {
        seq![digit_char(n)]
    } else {
        nat_text(n / 10).push(digit_char(n % 10))
    }
}

/// The text that `Display` writes for an integer.
pub open spec fn int_text(v: int) -> Seq<char> {
    if v < 0 {
        seq!['-'] + nat_text((-v) as nat)
    } else {
        nat_text(v as nat)
    }
}

proof fn lemma_digits_value_nonneg(d: Seq<char>)
    requires
        all_digits(d),
    ensures
        digits_value(d) >= 0,
    decreases d.len(),
{
    if d.len() > 0 {
        assert(is_digit(d[d.len() - 1]));
        lemma_digits_value_nonneg(d.drop_last());
    }
}

proof fn lemma_digits_value_grows(d: Seq<char>, k: int)
    requires
        all_digits(d),
        0 <= k <= d.len(),
    ensures
        digits_value(d.take(k)) <= digits_value(d),
    decreases d.len(),
{
    if k < d.len() {
        assert(d.drop_last().take(k) =~= d.take(k));
        assert(is_digit(d[d.len() - 1]));
        lemma_digits_value_grows(d.drop_last(), k);
        lemma_digits_value_nonneg(d.drop_last());
    } else {
        assert(d.take(k) =~= d);
    }
}

proof fn lemma_nat_text(n: nat)
    ensures
        nat_text(n).len() > 0,
        all_digits(nat_text(n)),
        digits_value(nat_text(n)) == n,
    decreases n,
{
    let k = n % 10;
    assert(digit_char(n) as u32 == k + 48);
    assert(digit_value(digit_char(n)) == k);
    if n >= 10 {
        lemma_nat_text(n / 10);
        let t = nat_text(n);
        assert(t.last() == digit_char(n % 10));
        assert(digit_char(n % 10) == digit_char(n));
        assert(digits_value(t) == digits_value(t.drop_last()) * 10 + digit_value(t.last()));
        assert(t.drop_last() =~= nat_text(n / 10));
        assert forall|i: int| 0 <= i < t.len() implies #[trigger] is_digit(t[i]) by {
            if i < t.len() - 1 {
                assert(t[i] == nat_text(n / 10)[i]);
            }
        }
    } else {
        assert(nat_text(n).drop_last() =~= Seq::<char>::empty());
        assert(digits_value(nat_text(n)) == digits_value(nat_text(n).drop_last()) * 10
            + digit_value(nat_text(n).last()));
    }
}

/// Reading back what `Display` writes for an integer gives the integer.
pub proof fn lemma_int_text_roundtrip(v: int)
    ensures
        int_value(int_text(v)) == Some(v),
{
    if v < 0 {
        let t = nat_text((-v) as nat);
        lemma_nat_text((-v) as nat);
        assert((seq!['-'] + t).drop_first() =~= t);
        assert(is_digit(t[0]));
    } else {
        let t = nat_text(v as nat);
        lemma_nat_text(v as nat);
        assert(is_digit(t[0]));
    }
}

/// Reads an `i64` the way `str::parse::<i64>` does.
pub fn parse_i64(s: &Vec<char>) -> (r: Option<i64>)
    ensures
        r == i64_value(s@),
{
    let n = s.len();
    if n == 0 {
        return None;
    }
    let c0 = s[0];
    let neg = c0 == '-';
    let start: usize = if c0 == '-' || c0 == '+' { 1 } else { 0 };
    if start == n {
        return None;
    }
    let ghost d = if start == 1 { s@.drop_first() } else { s@ };
    assert(d =~= s@.subrange(start as int, n as int));
    assert(s@[0] == c0);
    assert(d == (if s@.len() > 0 && (s@[0] == '-' || s@[0] == '+') {
        s@.drop_first()
    } else {
        s@
    }));
    assert(neg == (s@.len() > 0 && s@[0] == '-'));
    assert(d.len() > 0);
    let mut acc: i128 = 0;
    let mut i: usize = start;
    while i < n
        invariant
            start <= i <= n,
            n == s@.len(),
            d == s@.subrange(start as int, n as int),
            d == (if s@.len() > 0 && (s@[0] == '-' || s@[0] == '+') {
                s@.drop_first()
            } else {
                s@
            }),
            neg == (s@.len() > 0 && s@[0] == '-'),
            d.len() > 0,
            all_digits(d.take(i - start)),
            acc == digits_value(d.take(i - start)),
            0 <= acc <= 9223372036854775808,
        decreases n - i,
    {
        let c = s[i];
        let u = c as u32;
        if u < 48 || u > 57 {
            assert(d[i - start] == s@[i as int]);
            assert(!is_digit(d[i - start]));
            assert(!all_digits(d));
            assert(int_value(s@) is None);
            return None;
        }
        let ghost prev = d.take(i - start);
        acc = acc * 10 + (u - 48) as i128;
        i = i + 1;
        assert(d.take(i - start).drop_last() =~= prev);
        assert(d.take(i - start).last() == c);
        assert forall|j: int| 0 <= j < d.take(i - start).len() implies #[trigger] is_digit(
            d.take(i - start)[j],
        ) by {
            if j < prev.len() {
                assert(d.take(i - start)[j] == prev[j]);
            }
        }
        if acc > 9223372036854775808 {
            proof {
                if all_digits(d) {
                    lemma_digits_value_grows(d, i - start);
                    assert(digits_value(d) > 9223372036854775808);
                    assert(int_value(s@) == Some(digits_value(d)) || int_value(s@) == Some(
                        -digits_value(d),
                    ));
                } else {
                    assert(int_value(s@) is None);
                }
            }
            return None;
        }
    }
    assert(d.take(n - start) =~= d);
    if neg {
        Some((0 - acc) as i64)
    } else if acc <= 9223372036854775807 {
        Some(acc as i64)
    } else {
        None
    }
}

/// Reads an `i32` the way `str::parse::<i32>` does.
pub fn parse_i32(s: &Vec<char>) -> (r: Option<i32>)
    ensures
        r == i32_value(s@),
{
    match parse_i64(s) {
        Some(v) => if -2147483648 <= v && v <= 2147483647 {
            Some(v as i32)
        } else {
            None
        },
        None => {
            assert(int_value(s@) is Some ==> !(i32::MIN <= int_value(s@)->0 <= i32::MAX));
            None
        },
    }
}

pub(crate) fn push_nat_text(s: &mut String, n: u64)
    ensures
        final(s)@ == old(s)@ + nat_text(n as nat),
    decreases n,
{
    if n >= 10 {
        push_nat_text(s, n / 10);
    }
    let d = (n % 10) as u8;
    let c = (d + 48) as char;
    push_char(s, c);
    proof {
        if n >= 10 {
            assert(old(s)@ + nat_text((n / 10) as nat) + seq![c] =~= old(s)@ + nat_text(
                n as nat,
            ));
        } else {
            assert(old(s)@.push(c) =~= old(s)@ + nat_text(n as nat));
        }
    }
}

/// Appends the decimal text of an integer (as `Display` writes it).
pub fn push_i64(s: &mut String, v: i64)
    ensures
        final(s)@ == old(s)@ + int_text(v as int),
{
    if v < 0 {
        push_char(s, '-');
        let m: u64 = if v == i64::MIN { 9223372036854775808u64 } else { (0 - v) as u64 };
        push_nat_text(s, m);
        assert(old(s)@.push('-') + nat_text(m as nat) =~= old(s)@ + int_text(v as int));
    } else {
        push_nat_text(s, v as u64);
    }
}

/// The decimal text of an integer.
pub fn i64_text(v: i64) -> (r: String)
    ensures
        r@ == int_text(v as int),
{
    let mut s = String::new();
    push_i64(&mut s, v);
    assert(s@ =~= int_text(v as int));
    s
}

} // verus!

verus! {

// ── Splitting on a separator ──

/// The pieces of `s` between occurrences of `sep`, where `cur` is the piece
/// read so far: a left-to-right scan, as `str::split` with a `char` does it.
pub open spec fn split_from(s: Seq<char>, sep: char, cur: Seq<char>) -> Seq<Seq<char>>
    decreases s.len(),
{
    if s.len() == 0 {
        seq![cur]
    } else if s[0] == sep {
        seq![cur] + split_from(s.drop_first(), sep, Seq::empty())
    } else {
        split_from(s.drop_first(), sep, cur.push(s[0]))
    }
}

/// `s.split(sep)`: always at least one piece, empty pieces kept.
pub open spec fn split(s: Seq<char>, sep: char) -> Seq<Seq<char>> {
    split_from(s, sep, Seq::empty())
}

/// An id read from one piece of a list: the piece trimmed and read as `i64`,
/// or nothing when that fails.
pub open spec fn id_of_piece(p: Seq<char>) -> Seq<i64> {
    match i64_value(trim(p)) {
        Some(v) => seq![v],
        None => Seq::empty(),
    }
}

pub open spec fn ids_of_pieces(ps: Seq<Seq<char>>) -> Seq<i64>
    decreases ps.len(),
{
    if ps.len() == 0 {
        Seq::empty()
    } else {
        ids_of_pieces(ps.drop_last()) + id_of_piece(ps.last())
    }
}

/// The ids in a comma-separated list, as
/// `s.split(',').filter_map(|p| p.trim().parse::<i64>().ok())` collects them.
pub open spec fn id_list_value(s: Seq<char>) -> Seq<i64> {
    ids_of_pieces(split(s, ','))
}

/// The ids written in decimal and joined with commas.
pub open spec fn id_list_text(ids: Seq<i64>) -> Seq<char>
    decreases ids.len(),
{
    if ids.len() == 0 {
        Seq::empty()
    } else if ids.len() == 1 {
        int_text(ids[0] as int)
    } else {
        id_list_text(ids.drop_last()) + seq![','] + int_text(ids.last() as int)
    }
}

/// Reads the ids of a comma-separated list, skipping pieces that are not ids.
pub fn parse_id_list(s: &str) -> (r: Vec<i64>)
    ensures
        r@ == id_list_value(s@),
{
    let cs = chars_of(s);
    let n = cs.len();
    let mut r: Vec<i64> = Vec::new();
    let mut cur: Vec<char> = Vec::new();
    let ghost mut done: Seq<Seq<char>> = Seq::empty();
    let mut i: usize = 0;
    assert(cs@.skip(0) =~= cs@);
    while i < n
        invariant
            n == cs@.len(),
            cs@ == s@,
            i <= n,
            split(s@, ',') == done + split_from(cs@.skip(i as int), ',', cur@),
            r@ == ids_of_pieces(done),
        decreases n - i,
    {
        let c = cs[i];
        assert(cs@.skip(i as int).drop_first() =~= cs@.skip(i + 1));
        assert(cs@.skip(i as int)[0] == c);
        if c == ',' {
            let t = trim_chars(&cur);
            match parse_i64(&t) {
                Some(v) => r.push(v),
                None => {},
            }
            proof {
                let rest = split_from(cs@.skip(i + 1), ',', Seq::empty());
                assert(done + (seq![cur@] + rest) =~= done.push(cur@) + rest);
                assert(done.push(cur@).drop_last() =~= done);
                done = done.push(cur@);
            }
            cur = Vec::new();
            assert(r@ =~= ids_of_pieces(done));
        } else {
            cur.push(c);
        }
        i = i + 1;
    }
    let t = trim_chars(&cur);
    match parse_i64(&t) {
        Some(v) => r.push(v),
        None => {},
    }
    proof {
        assert(cs@.skip(n as int) =~= Seq::<char>::empty());
        assert(done + seq![cur@] =~= done.push(cur@));
        assert(done.push(cur@).drop_last() =~= done);
        done = done.push(cur@);
    }
    assert(r@ =~= ids_of_pieces(done));
    r
}

/// Writes ids in decimal, joined with commas.
pub fn join_ids(ids: &Vec<i64>) -> (r: String)
    ensures
        r@ == id_list_text(ids@),
{
    let mut r = String::new();
    let mut i: usize = 0;
    while i < ids.len()
        invariant
            i <= ids.len(),
            r@ == id_list_text(ids@.take(i as int)),
        decreases ids.len() - i,
    {
        let ghost before = r@;
        if i > 0 {
            push_char(&mut r, ',');
        }
        push_i64(&mut r, ids[i]);
        i = i + 1;
        proof {
            let t = ids@.take(i as int);
            assert(t.drop_last() =~= ids@.take(i - 1));
            if i == 1 {
                assert(r@ =~= id_list_text(t));
            } else {
                assert(r@ =~= before + seq![','] + int_text(t.last() as int));
            }
        }
    }
    assert(ids@.take(ids.len() as int) =~= ids@);
    r
}

} // verus!

verus! {

proof fn lemma_split_from_nonempty(s: Seq<char>, sep: char, cur: Seq<char>)
    ensures
        split_from(s, sep, cur).len() >= 1,
    decreases s.len(),
{
    if s.len() > 0 {
        if s[0] == sep {
            lemma_split_from_nonempty(s.drop_first(), sep, Seq::empty());
        } else {
            lemma_split_from_nonempty(s.drop_first(), sep, cur.push(s[0]));
        }
    }
}

proof fn lemma_split_from_concat(a: Seq<char>, r: Seq<char>, sep: char, cur: Seq<char>)
    ensures
        split_from(a + r, sep, cur) == split_from(a, sep, cur).drop_last() + split_from(
            r,
            sep,
            split_from(a, sep, cur).last(),
        ),
    decreases a.len(),
{
    lemma_split_from_nonempty(a, sep, cur);
    if a.len() == 0 {
        assert(a + r =~= r);
        assert(seq![cur].drop_last() + split_from(r, sep, cur) =~= split_from(r, sep, cur));
    } else {
        assert((a + r).drop_first() =~= a.drop_first() + r);
        assert((a + r)[0] == a[0]);
        if a[0] == sep {
            let s2 = split_from(a.drop_first(), sep, Seq::empty());
            lemma_split_from_concat(a.drop_first(), r, sep, Seq::empty());
            lemma_split_from_nonempty(a.drop_first(), sep, Seq::empty());
            assert((seq![cur] + s2).drop_last() =~= seq![cur] + s2.drop_last());
            assert((seq![cur] + s2).last() == s2.last());
            assert(seq![cur] + (s2.drop_last() + split_from(r, sep, s2.last())) =~= (seq![cur]
                + s2.drop_last()) + split_from(r, sep, s2.last()));
        } else {
            lemma_split_from_concat(a.drop_first(), r, sep, cur.push(a[0]));
        }
    }
}

proof fn lemma_split_no_sep(t: Seq<char>, sep: char, cur: Seq<char>)
    requires
        forall|i: int| 0 <= i < t.len() ==> t[i] != sep,
    ensures
        split_from(t, sep, cur) == seq![cur + t],
    decreases t.len(),
{
    if t.len() == 0 {
        assert(cur + t =~= cur);
    } else {
        assert(t[0] != sep);
        assert(cur.push(t[0]) + t.drop_first() =~= cur + t);
        lemma_split_no_sep(t.drop_first(), sep, cur.push(t[0]));
    }
}

proof fn lemma_int_text_shape(v: int)
    ensures
        int_text(v).len() > 0,
        forall|i: int| 0 <= i < int_text(v).len() ==> int_text(v)[i] != ',',
        !is_ws(int_text(v)[0]),
        !is_ws(int_text(v).last()),
        trim(int_text(v)) == int_text(v),
{
    let m: nat = if v < 0 { (-v) as nat } else { v as nat };
    lemma_nat_text(m);
    let t = nat_text(m);
    let s = int_text(v);
    assert(is_digit(t[0]));
    assert(is_digit(t[t.len() - 1]));
    if v < 0 {
        assert(s =~= seq!['-'] + t);
        assert forall|i: int| 0 <= i < s.len() implies s[i] != ',' by {
            if i > 0 {
                assert(s[i] == t[i - 1]);
                assert(is_digit(t[i - 1]));
            }
        }
        assert(s.last() == t.last());
    } else {
        assert forall|i: int| 0 <= i < s.len() implies s[i] != ',' by {
            assert(is_digit(t[i]));
        }
    }
    assert(trim_start(s) == s);
    assert(trim_end(s) == s);
}

/// Reading back the comma-separated text of a list of ids gives the list.
pub proof fn lemma_id_list_roundtrip(ids: Seq<i64>)
    ensures
        id_list_value(id_list_text(ids)) == ids,
    decreases ids.len(),
{
    if ids.len() == 0 {
        assert(split(Seq::empty(), ',') == seq![Seq::<char>::empty()]);
        assert(seq![Seq::<char>::empty()].drop_last() =~= Seq::<Seq<char>>::empty());
        assert(trim(Seq::<char>::empty()) =~= Seq::<char>::empty());
        assert(int_value(Seq::<char>::empty()) is None);
        let e = Seq::<char>::empty();
        assert(seq![e].last() == e);
        assert(ids_of_pieces(seq![e].drop_last()) == Seq::<i64>::empty());
        assert(i64_value(trim(e)) is None);
        assert(id_of_piece(e) == Seq::<i64>::empty());
        assert(ids_of_pieces(seq![e]) == ids_of_pieces(seq![e].drop_last()) + id_of_piece(e));
        assert(ids_of_pieces(seq![e]) =~= ids);
    } else {
        let t = int_text(ids.last() as int);
        lemma_int_text_shape(ids.last() as int);
        lemma_int_text_roundtrip(ids.last() as int);
        assert(id_of_piece(t) == seq![ids.last()]);
        if ids.len() == 1 {
            lemma_split_no_sep(t, ',', Seq::empty());
            assert(Seq::<char>::empty() + t =~= t);
            assert(seq![t].drop_last() =~= Seq::<Seq<char>>::empty());
            assert(seq![t].last() == t);
            assert(ids_of_pieces(seq![t].drop_last()) == Seq::<i64>::empty());
            assert(ids_of_pieces(seq![t]) == ids_of_pieces(seq![t].drop_last()) + id_of_piece(t));
            assert(ids_of_pieces(seq![t]) =~= ids);
        } else {
            let init = ids.drop_last();
            let a = id_list_text(init);
            lemma_id_list_roundtrip(init);
            let sa = split(a, ',');
            lemma_split_from_nonempty(a, ',', Seq::empty());
            lemma_split_from_concat(a, seq![','] + t, ',', Seq::empty());
            assert(a + seq![','] + t =~= a + (seq![','] + t));
            assert((seq![','] + t).drop_first() =~= t);
            lemma_split_no_sep(t, ',', Seq::empty());
            assert(Seq::<char>::empty() + t =~= t);
            assert(split_from(seq![','] + t, ',', sa.last()) == seq![sa.last()] + seq![t]);
            assert(sa.drop_last() + (seq![sa.last()] + seq![t]) =~= sa.push(t));
            assert(split(id_list_text(ids), ',') == sa.push(t));
            assert(sa.push(t).drop_last() =~= sa);
            assert(ids_of_pieces(sa.push(t)) == ids_of_pieces(sa) + id_of_piece(t));
            assert(init + seq![ids.last()] =~= ids);
        }
    }
}

} // verus!

verus! {

// ── Copying, comparing and joining texts ──

/// Appends a string slice.
pub fn push_str(s: &mut String, t: &str)
    ensures
        final(s)@ == old(s)@ + t@,
{
    let cs = chars_of(t);
    let mut i: usize = 0;
    while i < cs.len()
        invariant
            i <= cs.len(),
            cs@ == t@,
            s@ == old(s)@ + t@.take(i as int),
        decreases cs.len() - i,
    {
        push_char(s, cs[i]);
        i = i + 1;
        assert(s@ =~= old(s)@ + t@.take(i as int));
    }
    assert(t@.take(cs.len() as int) =~= t@);
}

/// An owned copy of a string slice.
pub fn owned(t: &str) -> (r: String)
    ensures
        r@ == t@,
{
    let mut r = String::new();
    push_str(&mut r, t);
    assert(r@ =~= t@);
    r
}

/// Whether two texts are equal, character by character.
pub fn same_text(a: &str, b: &str) -> (r: bool)
    ensures
        r == (a@ == b@),
{
    let x = chars_of(a);
    let y = chars_of(b);
    if x.len() != y.len() {
        return false;
    }
    let mut i: usize = 0;
    while i < x.len()
        invariant
            x@ == a@,
            y@ == b@,
            x.len() == y.len(),
            i <= x.len(),
            forall|j: int| 0 <= j < i ==> x@[j] == y@[j],
        decreases x.len() - i,
    {
        if x[i] != y[i] {
            return false;
        }
        i = i + 1;
    }
    assert(x@ =~= y@);
    true
}

/// Reads an `i64` from a string slice (`str::parse::<i64>`).
pub fn parse_i64_str(s: &str) -> (r: Option<i64>)
    ensures
        r == i64_value(s@),
{
    parse_i64(&chars_of(s))
}

/// Reads an `i32` from a string slice (`str::parse::<i32>`).
pub fn parse_i32_str(s: &str) -> (r: Option<i32>)
    ensures
        r == i32_value(s@),
{
    parse_i32(&chars_of(s))
}

/// The texts joined with a separator between neighbours (`[String]::join`).
pub open spec fn joined(parts: Seq<Seq<char>>, sep: Seq<char>) -> Seq<char>
    decreases parts.len(),
{
    if parts.len() == 0 {
        Seq::empty()
    } else if parts.len() == 1 {
        parts[0]
    } else {
        joined(parts.drop_last(), sep) + sep + parts.last()
    }
}

/// The views of a list of strings.
pub open spec fn views(v: Seq<String>) -> Seq<Seq<char>> {
    Seq::new(v.len(), |i: int| v[i]@)
}

/// Joins strings with a separator, as `[String]::join` does.
pub fn join_with(parts: &Vec<String>, sep: &str) -> (r: String)
    ensures
        r@ == joined(views(parts@), sep@),
{
    let mut r = String::new();
    let mut i: usize = 0;
    while i < parts.len()
        invariant
            i <= parts.len(),
            r@ == joined(views(parts@).take(i as int), sep@),
        decreases parts.len() - i,
    {
        let ghost before = r@;
        if i > 0 {
            push_str(&mut r, sep);
        }
        push_str(&mut r, parts[i].as_str());
        i = i + 1;
        proof {
            let t = views(parts@).take(i as int);
            assert(t.drop_last() =~= views(parts@).take(i - 1));
            if i == 1 {
                assert(r@ =~= joined(t, sep@));
            } else {
                assert(r@ =~= before + sep@ + t.last());
            }
        }
    }
    assert(views(parts@).take(parts.len() as int) =~= views(parts@));
    r
}

} // verus!

verus! {

/// A copy of an optional string.
pub fn copy_opt_text(o: &Option<String>) -> (r: Option<String>)
    ensures
        match (r, *o) {
            (Some(a), Some(b)) => a@ == b@,
            (None, None) => true,
            _ => false,
        },
{
    match o {
        Some(s) => Some(owned(s.as_str())),
        None => None,
    }
}

} // verus!

verus! {

/// The decimal text of an unsigned integer.
pub fn u64_text(n: u64) -> (r: String)
    ensures
        r@ == int_text(n as int),
{
    let mut s = String::new();
    push_nat_text(&mut s, n);
    assert(s@ =~= nat_text(n as nat));
    s
}

} // verus!
