//! Searching, splitting, replacing and joining text, and the decimal form of numbers.
use crate::text;
use crate::text::{chars_of, text_of};
use vstd::prelude::*;

verus! {

// ---------------------------------------------------------------------------------------------
// Searching
// ---------------------------------------------------------------------------------------------

/// `p` stands in `s` at position `i`.
pub open spec fn occurs_at(s: Seq<char>, p: Seq<char>, i: int) -> bool {
    0 <= i <= s.len() - p.len() && s.subrange(i, i + p.len()) == p
}

/// `s` begins with `p`.
pub open spec fn begins(s: Seq<char>, p: Seq<char>) -> bool {
    occurs_at(s, p, 0)
}

/// `s` ends with `p`.
pub open spec fn finishes(s: Seq<char>, p: Seq<char>) -> bool {
    occurs_at(s, p, s.len() - p.len())
}

/// `p` stands somewhere in `s`.
pub open spec fn has(s: Seq<char>, p: Seq<char>) -> bool {
    exists|i: int| occurs_at(s, p, i)
}

/// Whether `p` stands in `v` at position `i`.
pub fn stands_at(v: &[char], p: &[char], i: usize) -> (r: bool)
    ensures
        r == occurs_at(v@, p@, i as int),
{
    if i > v.len() || p.len() > v.len() - i {
        return false;
    }
    let mut k: usize = 0;
    while k < p.len()
        invariant
            k <= p@.len(),
            i + p.len() <= v.len(),
            forall|j: int| 0 <= j < k ==> v@[i + j] == p@[j],
        decreases p@.len() - k,
    {
        if v[i + k] != p[k] {
            assert(v@.subrange(i as int, i + p@.len())[k as int] != p@[k as int]);
            return false;
        }
        k = k + 1;
    }
    assert(v@.subrange(i as int, i + p@.len()) =~= p@);
    true
}

/// Whether `s` begins with `p`.
pub fn starts_with(s: &str, p: &str) -> (r: bool)
    ensures
        r == begins(s@, p@),
{
    stands_at(chars_of(s).as_slice(), chars_of(p).as_slice(), 0)
}

/// Whether `s` ends with `p`.
pub fn ends_with(s: &str, p: &str) -> (r: bool)
    ensures
        r == finishes(s@, p@),
{
    let v = chars_of(s);
    let q = chars_of(p);
    if q.len() > v.len() {
        return false;
    }
    stands_at(v.as_slice(), q.as_slice(), v.len() - q.len())
}

/// What follows the prefix `p`, if `s` begins with it.
pub fn strip_prefix(s: &str, p: &str) -> (r: Option<String>)
    ensures
        match r {
            Some(t) => begins(s@, p@) && t@ == s@.skip(p@.len() as int),
            None => !begins(s@, p@),
        },
{
    let v = chars_of(s);
    let q = chars_of(p);
    if stands_at(v.as_slice(), q.as_slice(), 0) {
        let t = vstd::slice::slice_subrange(v.as_slice(), q.len(), v.len());
        assert(t@ =~= s@.skip(p@.len() as int));
        Some(text_of(t))
    } else {
        None
    }
}

/// Whether `p` stands somewhere in `s`.
pub fn contains(s: &str, p: &str) -> (r: bool)
    ensures
        r == has(s@, p@),
{
    let v = chars_of(s);
    let q = chars_of(p);
    if q.len() > v.len() {
        return false;
    }
    let last: usize = v.len() - q.len();
    let mut i: usize = 0;
    while i <= last
        invariant
            last == v@.len() - q@.len(),
            i <= last + 1,
            last < usize::MAX || i <= last,
            v@ == s@,
            q@ == p@,
            forall|j: int| 0 <= j < i ==> !occurs_at(v@, q@, j),
        decreases last + 1 - i,
    {
        if stands_at(v.as_slice(), q.as_slice(), i) {
            assert(occurs_at(s@, p@, i as int));
            return true;
        }
        if i == last {
            assert forall|j: int| !occurs_at(s@, p@, j) by {
                if 0 <= j < i {
                    assert(!occurs_at(v@, q@, j));
                }
            }
            return false;
        }
        i = i + 1;
    }
    false
}

/// The first place from `i` on at which `p` stands in `s`.
pub open spec fn place_from(s: Seq<char>, p: Seq<char>, i: int) -> Option<int>
    decreases s.len() + 1 - i,
{
    if i < 0 || i + p.len() > s.len() {
        None
    } else if occurs_at(s, p, i) {
        Some(i)
    } else {
        place_from(s, p, i + 1)
    }
}

/// What stands in `s` before the first place of `p`; all of it where `p` stands nowhere.
pub open spec fn before_first(s: Seq<char>, p: Seq<char>) -> Seq<char> {
    match place_from(s, p, 0) {
        Some(i) => s.take(i),
        None => s,
    }
}

/// What stands in `s` before the first place of `p`; all of it where `p` stands nowhere.
pub fn cut_before(s: &str, p: &str) -> (r: String)
    ensures
        r@ == before_first(s@, p@),
{
    let v = chars_of(s);
    let w = chars_of(p);
    if w.len() == 0 {
        assert(s@.subrange(0, 0) =~= p@);
        assert(s@.take(0) =~= Seq::empty());
        return String::new();
    }
    let mut i: usize = 0;
    while w.len() <= v.len() - i
        invariant
            v@ == s@,
            w@ == p@,
            w.len() > 0,
            i <= v.len(),
            place_from(s@, p@, 0) == place_from(s@, p@, i as int),
        decreases v.len() - i,
    {
        if stands_at(v.as_slice(), w.as_slice(), i) {
            return text_of(vstd::slice::slice_subrange(v.as_slice(), 0, i));
        }
        i = i + 1;
    }
    s.to_owned()
}

/// The position of the first character of `s` with property `p`, or its length.
pub open spec fn first_index(s: Seq<char>, p: spec_fn(char) -> bool) -> int
    decreases s.len(),
{
    if s.len() == 0 || p(s[0]) {
        0
    } else {
        1 + first_index(s.drop_first(), p)
    }
}

/// The first index with a property lies in the text or at its end, and nothing before it has the
/// property.
pub proof fn first_index_bounds(s: Seq<char>, p: spec_fn(char) -> bool)
    ensures
        0 <= first_index(s, p) <= s.len(),
        forall|i: int| 0 <= i < first_index(s, p) ==> !p(#[trigger] s[i]),
        first_index(s, p) < s.len() ==> p(s[first_index(s, p)]),
    decreases s.len(),
{
    if s.len() > 0 && !p(s[0]) {
        let t = s.drop_first();
        first_index_bounds(t, p);
        assert forall|i: int| 0 <= i < first_index(s, p) implies !p(#[trigger] s[i]) by {
            if i > 0 {
                assert(t[i - 1] == s[i]);
            }
        }
    }
}

/// `first_index` is the one position that splits `s` into a front without the property and a
/// character with it.
pub proof fn first_index_is(s: Seq<char>, p: spec_fn(char) -> bool, k: int)
    requires
        0 <= k <= s.len(),
        forall|i: int| 0 <= i < k ==> !p(#[trigger] s[i]),
        k < s.len() ==> p(s[k]),
    ensures
        first_index(s, p) == k,
{
    first_index_bounds(s, p);
    let f = first_index(s, p);
    if f < k {
        assert(!p(s[f]));
    } else if k < f {
        assert(!p(s[k]));
    }
}

/// Finds the first character for which `f` holds.
pub(crate) fn find<F: Fn(char) -> bool>(v: &[char], f: F, Ghost(p): Ghost<spec_fn(char) -> bool>) -> (r: usize)
    requires
        forall|c: char| #[trigger] f.requires((c,)),
        forall|c: char, b: bool| #[trigger] f.ensures((c,), b) ==> b == p(c),
    ensures
        r == first_index(v@, p),
        r <= v@.len(),
{
    let mut i: usize = 0;
    while i < v.len() && !f(v[i])
        invariant
            i <= v@.len(),
            forall|c: char| #[trigger] f.requires((c,)),
            forall|c: char, b: bool| #[trigger] f.ensures((c,), b) ==> b == p(c),
            forall|j: int| 0 <= j < i ==> !p(#[trigger] v@[j]),
        decreases v@.len() - i,
    {
        i = i + 1;
    }
    proof {
        first_index_is(v@, p, i as int);
    }
    i
}

/// Every character of `s` has property `p`.
pub open spec fn all(s: Seq<char>, p: spec_fn(char) -> bool) -> bool {
    forall|i: int| 0 <= i < s.len() ==> p(#[trigger] s[i])
}

/// The character `k` stands in `s`.
pub open spec fn has_char(s: Seq<char>, k: char) -> bool {
    exists|i: int| 0 <= i < s.len() && #[trigger] s[i] == k
}

/// Whether `k` stands somewhere in `s`.
pub fn contains_char(s: &str, k: char) -> (r: bool)
    ensures
        r == has_char(s@, k),
{
    let v = chars_of(s);
    let mut i: usize = 0;
    while i < v.len()
        invariant
            i <= v@.len(),
            v@ == s@,
            forall|j: int| 0 <= j < i ==> #[trigger] v@[j] != k,
        decreases v@.len() - i,
    {
        if v[i] == k {
            assert(s@[i as int] == k);
            return true;
        }
        i = i + 1;
    }
    false
}

// ---------------------------------------------------------------------------------------------
// Splitting
// ---------------------------------------------------------------------------------------------

/// The pieces between separators, where `cur` is what the piece under way already holds.
pub open spec fn pieces(cur: Seq<char>, rest: Seq<char>, p: spec_fn(char) -> bool) -> Seq<Seq<char>>
    decreases rest.len(),
{
    if rest.len() == 0 {
        seq![cur]
    } else if p(rest[0]) {
        seq![cur] + pieces(Seq::empty(), rest.drop_first(), p)
    } else {
        pieces(cur.push(rest[0]), rest.drop_first(), p)
    }
}

/// `s` cut at every character with property `p`; the separators are in no piece.
pub open spec fn split(s: Seq<char>, p: spec_fn(char) -> bool) -> Seq<Seq<char>> {
    pieces(Seq::empty(), s, p)
}

/// A text that is cut has at least one piece.
pub proof fn pieces_nonempty(cur: Seq<char>, rest: Seq<char>, p: spec_fn(char) -> bool)
    ensures
        pieces(cur, rest, p).len() > 0,
    decreases rest.len(),
{
    if rest.len() > 0 && !p(rest[0]) {
        pieces_nonempty(cur.push(rest[0]), rest.drop_first(), p);
    }
}

/// Cuts `v` at every character for which `f` holds.
pub(crate) fn split_on<F: Fn(char) -> bool>(v: &[char], f: F, Ghost(p): Ghost<spec_fn(char) -> bool>) -> (r: Vec<String>)
    requires
        forall|c: char| #[trigger] f.requires((c,)),
        forall|c: char, b: bool| #[trigger] f.ensures((c,), b) ==> b == p(c),
    ensures
        text::texts(r@) == split(v@, p),
        r@.len() > 0,
{
    let mut out: Vec<String> = Vec::new();
    let mut cur = String::new();
    let mut i: usize = 0;
    assert(v@.skip(0) =~= v@);
    assert(text::texts(out@) + pieces(cur@, v@, p) =~= pieces(cur@, v@, p));
    while i < v.len()
        invariant
            i <= v@.len(),
            forall|c: char| #[trigger] f.requires((c,)),
            forall|c: char, b: bool| #[trigger] f.ensures((c,), b) ==> b == p(c),
            split(v@, p) == text::texts(out@) + pieces(cur@, v@.skip(i as int), p),
        decreases v@.len() - i,
    {
        let ghost before = text::texts(out@);
        let ghost rest = v@.skip(i as int);
        assert(rest.drop_first() =~= v@.skip(i + 1));
        if f(v[i]) {
            let ghost piece = cur@;
            out.push(cur);
            cur = String::new();
            assert(text::texts(out@) =~= before + seq![piece]);
            assert(before + (seq![piece] + pieces(Seq::empty(), rest.drop_first(), p)) =~= (before
                + seq![piece]) + pieces(cur@, rest.drop_first(), p));
        } else {
            cur.push(v[i]);
        }
        i = i + 1;
    }
    let ghost before = text::texts(out@);
    let ghost piece = cur@;
    out.push(cur);
    assert(text::texts(out@) =~= before + seq![piece]);
    out
}

/// Cuts `s` at every `k`.
pub fn split_at_char(s: &str, k: char) -> (r: Vec<String>)
    ensures
        text::texts(r@) == split(s@, crate::text::only(k)),
        r@.len() > 0,
{
    let v = chars_of(s);
    split_on(v.as_slice(), |c: char| -> (b: bool)
        ensures b == (c == k)
        { c == k }, Ghost(crate::text::only(k)))
}

/// What stands before the first `k` and what stands after it.
pub open spec fn cut_once(s: Seq<char>, k: char) -> Option<(Seq<char>, Seq<char>)> {
    let i = first_index(s, crate::text::only(k));
    if i < s.len() {
        Some((s.take(i), s.skip(i + 1)))
    } else {
        None
    }
}

/// What stands before and after the first `k` of `s`.
pub fn split_once(s: &str, k: char) -> (r: Option<(String, String)>)
    ensures
        match r {
            Some(q) => cut_once(s@, k) == Some((q.0@, q.1@)),
            None => cut_once(s@, k) is None,
        },
{
    let v = chars_of(s);
    let i = find(v.as_slice(), |c: char| -> (b: bool)
        ensures b == (c == k)
        { c == k }, Ghost(crate::text::only(k)));
    if i < v.len() {
        let a = vstd::slice::slice_subrange(v.as_slice(), 0, i);
        let b = vstd::slice::slice_subrange(v.as_slice(), i + 1, v.len());
        assert(a@ =~= s@.take(i as int));
        assert(b@ =~= s@.skip(i + 1));
        Some((text_of(a), text_of(b)))
    } else {
        None
    }
}

/// What stands after the last `k`, where there is one.
pub open spec fn after_last(s: Seq<char>, k: char) -> Option<Seq<char>>
    decreases s.len(),
{
    if s.len() == 0 {
        None
    } else if s.last() == k {
        Some(Seq::empty())
    } else {
        match after_last(s.drop_last(), k) {
            Some(t) => Some(t.push(s.last())),
            None => None,
        }
    }
}

/// What stands after the last `k` of `s`.
pub fn tail_after(s: &str, k: char) -> (r: Option<String>)
    ensures
        crate::text::opt_text(r) == after_last(s@, k),
{
    let v = chars_of(s);
    let mut best: Option<String> = None;
    let mut i: usize = 0;
    while i < v.len()
        invariant
            i <= v@.len(),
            v@ == s@,
            crate::text::opt_text(best) == after_last(v@.take(i as int), k),
        decreases v@.len() - i,
    {
        assert(v@.take(i + 1).drop_last() =~= v@.take(i as int));
        if v[i] == k {
            best = Some(String::new());
        } else {
            match best {
                Some(t) => {
                    let mut t2 = t;
                    t2.push(v[i]);
                    best = Some(t2);
                },
                None => {
                    best = None;
                },
            }
        }
        i = i + 1;
    }
    assert(v@.take(v@.len() as int) =~= s@);
    best
}

// ---------------------------------------------------------------------------------------------
// Replacing and joining
// ---------------------------------------------------------------------------------------------

/// `s` with every `k` replaced by `with`.
pub open spec fn replaced(s: Seq<char>, k: char, with: Seq<char>) -> Seq<char>
    decreases s.len(),
{
    if s.len() == 0 {
        Seq::empty()
    } else {
        replaced(s.drop_last(), k, with) + (if s.last() == k {
            with
        } else {
            seq![s.last()]
        })
    }
}

/// `s` with another text in place of each `k`.
pub fn replace(s: &str, k: char, with: &str) -> (r: String)
    ensures
        r@ == replaced(s@, k, with@),
{
    let v = chars_of(s);
    let mut r = String::new();
    let mut i: usize = 0;
    while i < v.len()
        invariant
            i <= v@.len(),
            v@ == s@,
            r@ == replaced(v@.take(i as int), k, with@),
        decreases v@.len() - i,
    {
        assert(v@.take(i + 1).drop_last() =~= v@.take(i as int));
        if v[i] == k {
            r.append(with);
        } else {
            let ghost before = r@;
            r.push(v[i]);
            assert(r@ =~= before + seq![v@[i as int]]);
        }
        i = i + 1;
    }
    assert(v@.take(v@.len() as int) =~= s@);
    r
}

/// The parts one after another, with `sep` between neighbours.
pub open spec fn joined(parts: Seq<Seq<char>>, sep: Seq<char>) -> Seq<char>
    decreases parts.len(),
{
    if parts.len() == 0 {
        Seq::empty()
    } else if parts.len() == 1 {
        parts[0]
    } else {
        joined(parts.drop_last(), sep) + sep + parts.last()
    }
}

/// Some texts, one after the other, with `sep` between them.
pub fn join(parts: &Vec<String>, sep: &str) -> (r: String)
    ensures
        r@ == joined(text::texts(parts@), sep@),
{
    let mut r = String::new();
    let mut i: usize = 0;
    let ghost all = text::texts(parts@);
    while i < parts.len()
        invariant
            i <= parts@.len(),
            all == text::texts(parts@),
            r@ == joined(all.take(i as int), sep@),
        decreases parts@.len() - i,
    {
        assert(all.take(i + 1).drop_last() =~= all.take(i as int));
        if i > 0 {
            r.append(sep);
        }
        r.append(parts[i].as_str());
        i = i + 1;
        assert(r@ =~= joined(all.take(i as int), sep@));
    }
    assert(all.take(all.len() as int) =~= all);
    r
}

// ---------------------------------------------------------------------------------------------
// Decimal numbers
// ---------------------------------------------------------------------------------------------

/// The property of being a decimal digit.
pub open spec fn digits() -> spec_fn(char) -> bool {
    |c: char| crate::text::is_digit(c)
}

/// The number that a row of decimal digits writes.
pub open spec fn digits_value(s: Seq<char>) -> nat
    decreases s.len(),
{
    if s.len() == 0 {
        0
    } else {
        digits_value(s.drop_last()) * 10 + ((s.last() as nat) - ('0' as nat)) as nat
    }
}

/// The digit for a number below ten.
pub open spec fn digit_char(d: nat) -> char {
    (('0' as u32) + d) as char
}

/// The decimal form of a number.
pub open spec fn decimal(n: nat) -> Seq<char>
    decreases n,
{
    if n < 10 {
        seq![digit_char(n)]
    } else {
        decimal(n / 10).push(digit_char(n % 10))
    }
}

/// The decimal form of a number that may be below zero.
pub open spec fn signed_decimal(n: int) -> Seq<char> {
    if n < 0 {
        seq!['-'] + decimal((-n) as nat)
    } else {
        decimal(n as nat)
    }
}

/// The number below `max` or equal to it that `s` writes: one or more digits, after at most one
/// plus sign.
pub open spec fn unsigned_value(s: Seq<char>, max: nat) -> Option<nat> {
    let body = if s.len() > 0 && s[0] == '+' {
        s.drop_first()
    } else {
        s
    };
    if body.len() > 0 && all(body, digits()) && digits_value(body) <= max {
        Some(digits_value(body))
    } else {
        None
    }
}

/// The 64-bit number that `s` writes: one or more digits, after at most one sign.
pub open spec fn signed_value(s: Seq<char>) -> Option<int> {
    let negative = s.len() > 0 && s[0] == '-';
    let body = if s.len() > 0 && (s[0] == '-' || s[0] == '+') {
        s.drop_first()
    } else {
        s
    };
    let magnitude = digits_value(body);
    if body.len() == 0 || !all(body, digits()) {
        None
    } else if negative {
        if magnitude <= 0x8000_0000_0000_0000 {
            Some(-(magnitude as int))
        } else {
            None
        }
    } else if magnitude <= i64::MAX {
        Some(magnitude as int)
    } else {
        None
    }
}

proof fn digits_value_grows(s: Seq<char>, i: int)
    requires
        0 <= i <= s.len(),
    ensures
        digits_value(s.take(i)) <= digits_value(s),
    decreases s.len() - i,
{
    if i < s.len() {
        assert(s.take(i + 1).drop_last() =~= s.take(i));
        digits_value_grows(s, i + 1);
    } else {
        assert(s.take(i) =~= s);
    }
}

/// Reads a row of decimal digits from position `from` on.
fn read_digits(v: &[char], from: usize, max: u64) -> (r: Option<u64>)
    requires
        from <= v@.len(),
    ensures
        ({
            let body = v@.skip(from as int);
            r == (if body.len() > 0 && all(body, digits()) && digits_value(body) <= max {
                Some(digits_value(body) as u64)
            } else {
                None
            })
        }),
{
    let ghost body = v@.skip(from as int);
    if from == v.len() {
        return None;
    }
    let mut n: u64 = 0;
    let mut i: usize = from;
    while i < v.len()
        invariant
            from <= i <= v@.len(),
            body == v@.skip(from as int),
            n == digits_value(body.take(i - from)),
            n <= max,
            forall|j: int| 0 <= j < i - from ==> crate::text::is_digit(#[trigger] body[j]),
        decreases v@.len() - i,
    {
        let c = v[i];
        assert(c == body[i - from]);
        assert(body.take(i + 1 - from).drop_last() =~= body.take(i - from));
        if !crate::text::digit(c) {
            assert(!digits()(body[i - from]));
            return None;
        }
        let d: u64 = (c as u64) - 48;
        proof {
            digits_value_grows(body, i + 1 - from);
        }
        if n > max / 10 || d > max - n * 10 {
            assert(n * 10 + d > max);
            return None;
        }
        n = n * 10 + d;
        i = i + 1;
    }
    assert(body.take(v@.len() - from) =~= body);
    Some(n)
}

/// The number that a text writes in decimal, where a `u64` holds it.
pub fn parse_u64(s: &str) -> (r: Option<u64>)
    ensures
        match r {
            Some(n) => unsigned_value(s@, u64::MAX as nat) == Some(n as nat),
            None => unsigned_value(s@, u64::MAX as nat) is None,
        },
{
    let v = chars_of(s);
    let from: usize = if v.len() > 0 && v[0] == '+' { 1 } else { 0 };
    assert(v@.skip(0) =~= v@);
    assert(v@.len() > 0 ==> v@.skip(1) =~= v@.drop_first());
    read_digits(v.as_slice(), from, u64::MAX)
}

/// The number that a text writes in decimal, where a `u32` holds it.
pub fn parse_u32(s: &str) -> (r: Option<u32>)
    ensures
        match r {
            Some(n) => unsigned_value(s@, u32::MAX as nat) == Some(n as nat),
            None => unsigned_value(s@, u32::MAX as nat) is None,
        },
{
    let v = chars_of(s);
    let from: usize = if v.len() > 0 && v[0] == '+' { 1 } else { 0 };
    assert(v@.skip(0) =~= v@);
    assert(v@.len() > 0 ==> v@.skip(1) =~= v@.drop_first());
    match read_digits(v.as_slice(), from, 0xffff_ffff) {
        Some(n) => Some(n as u32),
        None => None,
    }
}

/// The number that a text writes in decimal, where an `i64` holds it.
pub fn parse_i64(s: &str) -> (r: Option<i64>)
    ensures
        match r {
            Some(n) => signed_value(s@) == Some(n as int),
            None => signed_value(s@) is None,
        },
{
    let v = chars_of(s);
    assert(v@.skip(0) =~= v@);
    assert(v@.len() > 0 ==> v@.skip(1) =~= v@.drop_first());
    if v.len() > 0 && v[0] == '-' {
        match read_digits(v.as_slice(), 1, 0x8000_0000_0000_0000) {
            Some(n) => {
                if n == 0x8000_0000_0000_0000 {
                    Some(i64::MIN)
                } else {
                    Some(-(n as i64))
                }
            },
            None => None,
        }
    } else {
        let from: usize = if v.len() > 0 && v[0] == '+' { 1 } else { 0 };
        match read_digits(v.as_slice(), from, 0x7fff_ffff_ffff_ffff) {
            Some(n) => Some(n as i64),
            None => None,
        }
    }
}

/// Writes a number in decimal.
pub fn show_wide(n: u128) -> (r: String)
    ensures
        r@ == decimal(n as nat),
    decreases n,
{
    if n < 10 {
        let mut r = String::new();
        r.push(((n as u8) + 48) as char);
        assert(r@ =~= decimal(n as nat));
        r
    } else {
        let mut r = show_wide(n / 10);
        r.push(((n % 10) as u8 + 48) as char);
        r
    }
}

/// The decimal digits of a number.
pub fn show(n: u64) -> (r: String)
    ensures
        r@ == decimal(n as nat),
{
    show_wide(n as u128)
}

/// Writes a number that may be below zero in decimal.
pub fn show_signed(n: i64) -> (r: String)
    ensures
        r@ == signed_decimal(n as int),
{
    if n < 0 {
        let mut r = String::new();
        r.push('-');
        let magnitude: u64 = if n == i64::MIN { 0x8000_0000_0000_0000 } else { (-n) as u64 };
        r.append(show(magnitude).as_str());
        assert(r@ =~= signed_decimal(n as int));
        r
    } else {
        show(n as u64)
    }
}

// ---------------------------------------------------------------------------------------------
// Laws
// ---------------------------------------------------------------------------------------------

proof fn joined_from_front(parts: Seq<Seq<char>>, sep: Seq<char>)
    requires
        parts.len() > 1,
    ensures
        joined(parts, sep) == parts[0] + sep + joined(parts.drop_first(), sep),
    decreases parts.len(),
{
    if parts.len() == 2 {
        assert(parts.drop_last() =~= seq![parts[0]]);
        assert(parts.drop_first() =~= seq![parts[1]]);
        assert(joined(parts.drop_last(), sep) == parts[0]);
        assert(joined(parts.drop_first(), sep) == parts[1]);
    } else {
        joined_from_front(parts.drop_last(), sep);
        assert(parts.drop_last().drop_first() =~= parts.drop_first().drop_last());
        assert(parts.drop_first().last() == parts.last());
        assert(joined(parts, sep) =~= parts[0] + sep + joined(parts.drop_first(), sep));
    }
}

proof fn pieces_of_a_run(cur: Seq<char>, run: Seq<char>, rest: Seq<char>, k: char)
    requires
        !has_char(run, k),
    ensures
        pieces(cur, run, crate::text::only(k)) == seq![cur + run],
        pieces(cur, run + seq![k] + rest, crate::text::only(k)) == seq![cur + run] + pieces(
            Seq::empty(),
            rest,
            crate::text::only(k),
        ),
    decreases run.len(),
{
    let p = crate::text::only(k);
    if run.len() == 0 {
        assert(cur + run =~= cur);
        assert((run + seq![k] + rest).drop_first() =~= rest);
    } else {
        let tail = run.drop_first();
        assert(run[0] != k);
        assert forall|i: int| 0 <= i < tail.len() implies #[trigger] tail[i] != k by {
            assert(tail[i] == run[i + 1]);
        }
        pieces_of_a_run(cur.push(run[0]), tail, rest, k);
        assert(cur.push(run[0]) + tail =~= cur + run);
        assert((run + seq![k] + rest).drop_first() =~= tail + seq![k] + rest);
    }
}

/// Texts that are joined by a character that stands in none of them are the pieces of the joined text: a
/// row of columns, or the lines of a file, is read back.
pub proof fn joined_texts_are_cut_again(parts: Seq<Seq<char>>, k: char)
    requires
        parts.len() > 0,
        forall|i: int| 0 <= i < parts.len() ==> !has_char(#[trigger] parts[i], k),
    ensures
        split(joined(parts, seq![k]), crate::text::only(k)) == parts,
    decreases parts.len(),
{
    if parts.len() == 1 {
        pieces_of_a_run(Seq::empty(), parts[0], Seq::empty(), k);
        assert(Seq::<char>::empty() + parts[0] =~= parts[0]);
        assert(parts =~= seq![parts[0]]);
    } else {
        let rest = parts.drop_first();
        joined_from_front(parts, seq![k]);
        assert forall|i: int| 0 <= i < rest.len() implies !has_char(#[trigger] rest[i], k) by {
            assert(rest[i] == parts[i + 1]);
        }
        joined_texts_are_cut_again(rest, k);
        pieces_of_a_run(Seq::empty(), parts[0], joined(rest, seq![k]), k);
        assert(Seq::<char>::empty() + parts[0] =~= parts[0]);
        assert(seq![parts[0]] + rest =~= parts);
    }
}

proof fn pieces_hold_no_separator(cur: Seq<char>, rest: Seq<char>, k: char)
    requires
        !has_char(cur, k),
    ensures
        forall|i: int|
            0 <= i < pieces(cur, rest, crate::text::only(k)).len() ==> !has_char(
                #[trigger] pieces(cur, rest, crate::text::only(k))[i],
                k,
            ),
        joined(pieces(cur, rest, crate::text::only(k)), seq![k]) == cur + rest,
        pieces(cur, rest, crate::text::only(k)).len() > 0,
    decreases rest.len(),
{
    let p = crate::text::only(k);
    if rest.len() == 0 {
        assert(cur + rest =~= cur);
    } else if rest[0] == k {
        let more = pieces(Seq::empty(), rest.drop_first(), p);
        pieces_hold_no_separator(Seq::empty(), rest.drop_first(), k);
        let all = seq![cur] + more;
        assert forall|i: int| 0 <= i < all.len() implies !has_char(#[trigger] all[i], k) by {
            if i > 0 {
                assert(all[i] == more[i - 1]);
            }
        }
        joined_from_front(all, seq![k]);
        assert(all.drop_first() =~= more);
        assert(cur + seq![k] + (Seq::<char>::empty() + rest.drop_first()) =~= cur + rest);
    } else {
        let next = cur.push(rest[0]);
        assert forall|i: int| 0 <= i < next.len() implies #[trigger] next[i] != k by {
            if i < cur.len() {
                assert(cur[i] != k);
            }
        }
        pieces_hold_no_separator(next, rest.drop_first(), k);
        assert(next + rest.drop_first() =~= cur + rest);
    }
}

/// The pieces of a text hold no separator, and joined by it they are the text.
pub proof fn pieces_join_to_the_text(s: Seq<char>, k: char)
    ensures
        joined(split(s, crate::text::only(k)), seq![k]) == s,
        forall|i: int|
            0 <= i < split(s, crate::text::only(k)).len() ==> !has_char(
                #[trigger] split(s, crate::text::only(k))[i],
                k,
            ),
{
    pieces_hold_no_separator(Seq::empty(), s, k);
    assert(Seq::<char>::empty() + s =~= s);
}

/// A name without the separator, the separator and a value are told apart again, and a text without the
/// separator is not cut.
pub proof fn names_and_values_are_told_apart(name: Seq<char>, k: char, value: Seq<char>)
    requires
        !has_char(name, k),
    ensures
        cut_once(name + seq![k] + value, k) == Some((name, value)),
        cut_once(name, k) is None,
{
    let s = name + seq![k] + value;
    let p = crate::text::only(k);
    assert forall|i: int| 0 <= i < name.len() implies !p(#[trigger] s[i]) by {
        assert(s[i] == name[i]);
    }
    assert(s[name.len() as int] == k);
    first_index_is(s, p, name.len() as int);
    assert(s.take(name.len() as int) =~= name);
    assert(s.skip(name.len() as int + 1) =~= value);
    first_index_is(name, p, name.len() as int);
}

proof fn decimal_digits(n: nat)
    ensures
        decimal(n).len() > 0,
        all(decimal(n), digits()),
        digits_value(decimal(n)) == n,
    decreases n,
{
    let d: nat = n % 10;
    assert(digit_char(d) as u32 == 48 + d);
    assert(crate::text::is_digit(digit_char(d)));
    if n < 10 {
        assert(decimal(n).drop_last() =~= Seq::<char>::empty());
        assert(digits_value(Seq::<char>::empty()) == 0);
        assert(decimal(n).last() == digit_char(n));
    } else {
        decimal_digits(n / 10);
        let a = decimal(n / 10);
        let b = decimal(n);
        assert(b.drop_last() =~= a);
        assert(b.last() == digit_char(d));
        assert forall|i: int| 0 <= i < b.len() implies digits()(#[trigger] b[i]) by {
            if i < a.len() {
                assert(b[i] == a[i]);
            }
        }
    }
}

/// A number that is written in decimal is read back, as far as the reader counts; one that is larger is
/// not read at all. A plus sign before it changes nothing.
pub proof fn written_numbers_are_read_back(n: nat, max: nat)
    ensures
        n <= max ==> unsigned_value(decimal(n), max) == Some(n),
        n <= max ==> unsigned_value(seq!['+'] + decimal(n), max) == Some(n),
        n > max ==> unsigned_value(decimal(n), max) is None,
{
    decimal_digits(n);
    let s = decimal(n);
    assert(digits()(s[0]));
    assert((seq!['+'] + s).drop_first() =~= s);
}

/// A number with a sign is read back as well.
pub proof fn signed_numbers_are_read_back(n: int)
    ensures
        -0x8000_0000_0000_0000 <= n <= 0x7fff_ffff_ffff_ffff ==> signed_value(signed_decimal(n)) == Some(n),
        n < -0x8000_0000_0000_0000 || n > 0x7fff_ffff_ffff_ffff ==> signed_value(signed_decimal(n)) is None,
{
    let m: nat = if n < 0 {
        (-n) as nat
    } else {
        n as nat
    };
    decimal_digits(m);
    let s = decimal(m);
    assert(digits()(s[0]));
    assert((seq!['-'] + s).drop_first() =~= s);
}

/// A text with a character that is no digit is no number.
pub proof fn other_texts_are_no_numbers(s: Seq<char>, i: int, max: nat)
    requires
        0 < i < s.len(),
        !crate::text::is_digit(s[i]),
    ensures
        unsigned_value(s, max) is None,
        signed_value(s) is None,
{
    assert(!digits()(s[i]));
    assert(s.drop_first()[i - 1] == s[i]);
    assert(!digits()(s.drop_first()[i - 1]));
}

/// The decimal form of a number holds digits alone, and no white space around it.
pub proof fn decimals_are_plain(n: nat)
    ensures
        decimal(n).len() > 0,
        forall|i: int| 0 <= i < decimal(n).len() ==> '0' <= #[trigger] decimal(n)[i] <= '9',
        crate::text::trimmed(decimal(n)) == decimal(n),
{
    decimal_digits(n);
    let s = decimal(n);
    assert forall|i: int| 0 <= i < s.len() implies '0' <= #[trigger] s[i] <= '9' by {
        assert(digits()(s[i]));
    }
    crate::text::trimmed_is(s);
}

/// What follows the last separator is what was written behind it.
pub proof fn last_part_follows(a: Seq<char>, k: char, b: Seq<char>)
    requires
        !has_char(b, k),
    ensures
        after_last(a + seq![k] + b, k) == Some(b),
        after_last(b, k) is None,
    decreases b.len(),
{
    let s = a + seq![k] + b;
    if b.len() == 0 {
        assert(s.last() == k);
        assert(b =~= Seq::empty());
    } else {
        let less = b.drop_last();
        assert(b[b.len() - 1] != k);
        assert forall|i: int| 0 <= i < less.len() implies #[trigger] less[i] != k by {
            assert(less[i] == b[i]);
        }
        last_part_follows(a, k, less);
        assert(s.last() == b.last());
        assert(s.drop_last() =~= a + seq![k] + less);
        assert(less.push(b.last()) =~= b);
    }
}

proof fn place_is_first(s: Seq<char>, p: Seq<char>, from: int, at: int)
    requires
        0 <= from <= at,
        occurs_at(s, p, at),
        forall|i: int| from <= i < at ==> !#[trigger] occurs_at(s, p, i),
    ensures
        place_from(s, p, from) == Some(at),
    decreases at - from,
{
    if from < at {
        assert(!occurs_at(s, p, from));
        place_is_first(s, p, from + 1, at);
    }
}

/// What stands before the first place of a text is what was written before it.
pub proof fn first_part_comes_before(a: Seq<char>, p: Seq<char>, b: Seq<char>)
    requires
        forall|i: int| 0 <= i < a.len() ==> !#[trigger] occurs_at(a + p + b, p, i),
    ensures
        before_first(a + p + b, p) == a,
{
    let s = a + p + b;
    let n = a.len() as int;
    assert(s.subrange(n, n + p.len()) =~= p);
    place_is_first(s, p, 0, n);
    assert(s.take(n) =~= a);
}

proof fn no_place(s: Seq<char>, p: Seq<char>, from: int)
    requires
        0 <= from,
        !self::has(s, p),
    ensures
        place_from(s, p, from) is None,
    decreases s.len() + 1 - from,
{
    assert(!occurs_at(s, p, from));
    if from + p.len() <= s.len() {
        no_place(s, p, from + 1);
    }
}

/// A text in which another one stands nowhere is left whole.
pub proof fn whole_texts_come_before(s: Seq<char>, p: Seq<char>)
    ensures
        !self::has(s, p) ==> before_first(s, p) == s,
{
    if !self::has(s, p) {
        no_place(s, p, 0);
    }
}

/// Replacing a character puts the other text in each of its places and leaves the other characters in theirs.
pub proof fn characters_are_replaced_in_place(a: Seq<char>, c: char, k: char, with: Seq<char>)
    ensures
        c != k ==> replaced(a.push(c), k, with) == replaced(a, k, with).push(c),
        replaced(a.push(k), k, with) == replaced(a, k, with) + with,
        replaced(Seq::empty(), k, with) == Seq::<char>::empty(),
{
    assert(a.push(c).drop_last() =~= a);
    assert(a.push(k).drop_last() =~= a);
    assert(replaced(a, k, with) + seq![c] =~= replaced(a, k, with).push(c));
}

} // verus!
