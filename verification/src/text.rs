//! Text primitives: characters, trimming, case folding, splitting and numbers.
//!
//! Every function works on the sequence of Unicode scalar values that a string holds.
use vstd::prelude::*;

verus! {

/// `String::push`: appends one character to the end of the string.
pub assume_specification[ String::push ](s: &mut String, c: char)
    ensures
        final(s)@ == old(s)@.push(c),
;

// ---------------------------------------------------------------------------------------------
// Conversions
// ---------------------------------------------------------------------------------------------

/// The characters of a string, in order.
pub fn chars_of(s: &str) -> (v: Vec<char>)
    ensures
        v@ == s@,
{
    let mut v: Vec<char> = Vec::new();
    for c in it: s.chars()
        invariant
            v@ == it.seq().take(it.index() as int),
            it.seq() == s@,
    {
        v.push(c);
    }
    v
}

/// The string that holds the given characters.
pub fn text_of(v: &[char]) -> (s: String)
    ensures
        s@ == v@,
{
    let mut s = String::new();
    let mut i: usize = 0;
    while i < v.len()
        invariant
            i <= v@.len(),
            s@ == v@.take(i as int),
        decreases v@.len() - i,
    {
        s.push(v[i]);
        i = i + 1;
    }
    s
}

/// Whether two strings hold the same characters.
pub fn same_text(a: &str, b: &str) -> (r: bool)
    ensures
        r == (a@ == b@),
{
    a.to_owned() == b.to_owned()
}

/// What an optional owned string holds.
pub open spec fn opt_text(o: Option<String>) -> Option<Seq<char>> {
    match o {
        Some(s) => Some(s@),
        None => None,
    }
}

/// What an optional borrowed string holds.
pub open spec fn opt_str(o: Option<&str>) -> Option<Seq<char>> {
    match o {
        Some(s) => Some(s@),
        None => None,
    }
}

/// What each string of a list holds.
pub open spec fn texts(v: Seq<String>) -> Seq<Seq<char>> {
    Seq::new(v.len(), |i: int| v[i]@)
}

/// Borrows what an optional string holds.
pub fn borrow_text(o: &Option<String>) -> (r: Option<&str>)
    ensures
        opt_str(r) == opt_text(*o),
{
    match o {
        Some(s) => Some(s.as_str()),
        None => None,
    }
}

/// Copies an optional string.
pub fn clone_opt_text(o: &Option<String>) -> (r: Option<String>)
    ensures
        opt_text(r) == opt_text(*o),
{
    match o {
        Some(s) => Some(s.clone()),
        None => None,
    }
}

/// Two texts, one after the other.
pub fn cat(a: &str, b: &str) -> (r: String)
    ensures
        r@ == a@ + b@,
{
    let mut r = a.to_owned();
    r.append(b);
    r
}

/// Three texts, one after the other.
pub fn cat3(a: &str, b: &str, c: &str) -> (r: String)
    ensures
        r@ == a@ + b@ + c@,
{
    let mut r = a.to_owned();
    r.append(b);
    r.append(c);
    r
}

/// Five texts, one after the other.
pub fn cat5(a: &str, b: &str, c: &str, d: &str, e: &str) -> (r: String)
    ensures
        r@ == a@ + b@ + c@ + d@ + e@,
{
    let mut r = cat3(a, b, c);
    r.append(d);
    r.append(e);
    r
}

// ---------------------------------------------------------------------------------------------
// Characters
// ---------------------------------------------------------------------------------------------

/// The bytes that a character takes in UTF-8.
pub open spec fn width(c: char) -> nat {
    if '\u{80}' > c {
        1
    } else if '\u{800}' > c {
        2
    } else if '\u{10000}' > c {
        3
    } else {
        4
    }
}

/// The bytes that a text takes in UTF-8.
pub open spec fn byte_len(s: Seq<char>) -> nat
    decreases s.len(),
{
    if s.len() == 0 {
        0
    } else {
        byte_len(s.drop_last()) + width(s.last())
    }
}

/// The bytes that a character takes in UTF-8.
pub fn char_width(c: char) -> (r: u8)
    ensures
        r == width(c),
{
    if '\u{80}' > c {
        1
    } else if '\u{800}' > c {
        2
    } else if '\u{10000}' > c {
        3
    } else {
        4
    }
}

/// The bytes that a text takes in UTF-8.
pub fn bytes_in(s: &str) -> (r: u128)
    ensures
        r == byte_len(s@),
        r <= 4 * usize::MAX,
{
    let v = chars_of(s);
    let mut i: usize = 0;
    let mut n: u128 = 0;
    assert(v@.take(0) =~= Seq::empty());
    while i < v.len()
        invariant
            i <= v@.len(),
            n == byte_len(v@.take(i as int)),
            n <= 4 * i,
        decreases v@.len() - i,
    {
        assert(v@.take(i + 1).drop_last() =~= v@.take(i as int));
        n = n + char_width(v[i]) as u128;
        i = i + 1;
    }
    assert(v@.take(v@.len() as int) =~= v@);
    n
}

/// A letter or a digit of any script.
pub uninterp spec fn alphanumeric(c: char) -> bool;

/// The characters that stand for a character in lower case.
pub uninterp spec fn lowercase_forms(c: char) -> Seq<char>;

/// `char::is_alphanumeric`: whether Unicode counts the character as a letter or a number; of the
/// ASCII characters these are the letters and the digits.
#[verifier::external_body]
pub(crate) fn is_alphanumeric(c: char) -> (r: bool)
    ensures
        r == alphanumeric(c),
        '\u{80}' > c ==> r == is_alnum(c),
{
    c.is_alphanumeric()
}

/// `char::to_lowercase`: the lower-case mapping of Unicode; of an ASCII character it is the one
/// small letter, or the character itself.
#[verifier::external_body]
pub(crate) fn to_lowercase(c: char) -> (r: Vec<char>)
    ensures
        r@ == lowercase_forms(c),
        '\u{80}' > c ==> r@ == seq![lower(c)],
{
    c.to_lowercase().collect()
}

/// The Unicode property `White_Space`.
pub open spec fn is_white_space(c: char) -> bool {
    ||| '\u{9}' <= c <= '\u{d}'
    ||| c == '\u{20}'
    ||| c == '\u{85}'
    ||| c == '\u{a0}'
    ||| c == '\u{1680}'
    ||| '\u{2000}' <= c <= '\u{200a}'
    ||| c == '\u{2028}'
    ||| c == '\u{2029}'
    ||| c == '\u{202f}'
    ||| c == '\u{205f}'
    ||| c == '\u{3000}'
}

/// Whether a character is white space.
pub fn white_space(c: char) -> (r: bool)
    ensures
        r == is_white_space(c),
{
    ('\u{9}' <= c && c <= '\u{d}') || c == '\u{20}' || c == '\u{85}' || c == '\u{a0}' || c
        == '\u{1680}' || ('\u{2000}' <= c && c <= '\u{200a}') || c == '\u{2028}' || c == '\u{2029}'
        || c == '\u{202f}' || c == '\u{205f}' || c == '\u{3000}'
}

/// White space within ASCII: space, tab, line feed, form feed and carriage return.
pub open spec fn is_ascii_space(c: char) -> bool {
    c == ' ' || c == '\u{9}' || c == '\u{a}' || c == '\u{c}' || c == '\u{d}'
}

pub open spec fn is_digit(c: char) -> bool {
    '0' <= c <= '9'
}

pub open spec fn is_upper(c: char) -> bool {
    'A' <= c <= 'Z'
}

pub open spec fn is_lower(c: char) -> bool {
    'a' <= c <= 'z'
}

pub open spec fn is_alnum(c: char) -> bool {
    is_digit(c) || is_upper(c) || is_lower(c)
}

pub open spec fn is_hex_digit(c: char) -> bool {
    is_digit(c) || 'a' <= c <= 'f' || 'A' <= c <= 'F'
}

/// Whether a character is ASCII white space.
pub fn ascii_space(c: char) -> (r: bool)
    ensures
        r == is_ascii_space(c),
{
    c == ' ' || c == '\u{9}' || c == '\u{a}' || c == '\u{c}' || c == '\u{d}'
}

/// Whether a character is a decimal digit.
pub fn digit(c: char) -> (r: bool)
    ensures
        r == is_digit(c),
{
    '0' <= c && c <= '9'
}

/// Whether a character is an ASCII letter or digit.
pub fn alnum(c: char) -> (r: bool)
    ensures
        r == is_alnum(c),
{
    ('0' <= c && c <= '9') || ('A' <= c && c <= 'Z') || ('a' <= c && c <= 'z')
}

/// Whether a character is a hexadecimal digit.
pub fn hex_digit(c: char) -> (r: bool)
    ensures
        r == is_hex_digit(c),
{
    ('0' <= c && c <= '9') || ('a' <= c && c <= 'f') || ('A' <= c && c <= 'F')
}

/// The lower-case form of an ASCII capital; any other character is left alone.
pub open spec fn lower(c: char) -> char {
    if is_upper(c) {
        ((c as u32) + 32) as char
    } else {
        c
    }
}

/// The upper-case form of a small ASCII letter; any other character is left alone.
pub open spec fn upper(c: char) -> char {
    if is_lower(c) {
        ((c as u32) - 32) as char
    } else {
        c
    }
}

pub open spec fn lower_text(s: Seq<char>) -> Seq<char> {
    Seq::new(s.len(), |i: int| lower(s[i]))
}

pub open spec fn upper_text(s: Seq<char>) -> Seq<char> {
    Seq::new(s.len(), |i: int| upper(s[i]))
}

/// A character with an ASCII letter in lower case.
pub fn to_lower(c: char) -> (r: char)
    ensures
        r == lower(c),
{
    if 'A' <= c && c <= 'Z' {
        ((c as u8) + 32) as char
    } else {
        c
    }
}

/// A character with an ASCII letter in upper case.
pub fn to_upper(c: char) -> (r: char)
    ensures
        r == upper(c),
{
    if 'a' <= c && c <= 'z' {
        ((c as u8) - 32) as char
    } else {
        c
    }
}

/// The string with every ASCII capital made small.
pub fn lowercase(s: &str) -> (r: String)
    ensures
        r@ == lower_text(s@),
{
    let v = chars_of(s);
    let mut r = String::new();
    let mut i: usize = 0;
    while i < v.len()
        invariant
            i <= v@.len(),
            r@ == lower_text(v@).take(i as int),
        decreases v@.len() - i,
    {
        r.push(to_lower(v[i]));
        i = i + 1;
    }
    r
}

/// The string with every small ASCII letter made a capital.
pub fn uppercase(s: &str) -> (r: String)
    ensures
        r@ == upper_text(s@),
{
    let v = chars_of(s);
    let mut r = String::new();
    let mut i: usize = 0;
    while i < v.len()
        invariant
            i <= v@.len(),
            r@ == upper_text(v@).take(i as int),
        decreases v@.len() - i,
    {
        r.push(to_upper(v[i]));
        i = i + 1;
    }
    r
}

/// Equality up to the case of ASCII letters.
pub open spec fn same_ignoring_case(a: Seq<char>, b: Seq<char>) -> bool {
    lower_text(a) == lower_text(b)
}

/// Whether two texts are the same apart from the case of ASCII letters.
pub fn eq_ignore_case(a: &str, b: &str) -> (r: bool)
    ensures
        r == same_ignoring_case(a@, b@),
{
    lowercase(a) == lowercase(b)
}

// ---------------------------------------------------------------------------------------------
// Runs at the ends of a text
// ---------------------------------------------------------------------------------------------

/// The property of being white space.
pub open spec fn space() -> spec_fn(char) -> bool {
    |c: char| is_white_space(c)
}

/// The property of being one given character.
pub open spec fn only(k: char) -> spec_fn(char) -> bool {
    |c: char| c == k
}

/// What is left of `s` once the run of characters with property `p` at its front is gone.
pub open spec fn drop_front(s: Seq<char>, p: spec_fn(char) -> bool) -> Seq<char>
    decreases s.len(),
{
    if s.len() > 0 && p(s[0]) {
        drop_front(s.drop_first(), p)
    } else {
        s
    }
}

/// What is left of `s` once the run of characters with property `p` at its back is gone.
pub open spec fn drop_back(s: Seq<char>, p: spec_fn(char) -> bool) -> Seq<char>
    decreases s.len(),
{
    if s.len() > 0 && p(s.last()) {
        drop_back(s.drop_last(), p)
    } else {
        s
    }
}

/// `s` without the white space at either end.
pub open spec fn trimmed(s: Seq<char>) -> Seq<char> {
    drop_back(drop_front(s, space()), space())
}

proof fn drop_front_ends(s: Seq<char>, p: spec_fn(char) -> bool)
    ensures
        drop_front(s, p).len() == 0 || !p(drop_front(s, p)[0]),
        drop_front(s, p).len() <= s.len(),
        drop_front(s, p) == s.skip(s.len() - drop_front(s, p).len()),
    decreases s.len(),
{
    if s.len() > 0 && p(s[0]) {
        drop_front_ends(s.skip(1), p);
        let k = drop_front(s.skip(1), p).len();
        assert(s.skip(1).skip(s.skip(1).len() - k) =~= s.skip(s.len() - k));
    } else {
        assert(s.skip(0) =~= s);
    }
}

proof fn drop_back_ends(s: Seq<char>, p: spec_fn(char) -> bool)
    ensures
        drop_back(s, p).len() == 0 || !p(drop_back(s, p).last()),
        drop_back(s, p).len() <= s.len(),
        drop_back(s, p) == s.take(drop_back(s, p).len() as int),
    decreases s.len(),
{
    if s.len() > 0 && p(s.last()) {
        drop_back_ends(s.drop_last(), p);
        let k = drop_back(s.drop_last(), p).len();
        assert(s.drop_last().take(k as int) =~= s.take(k as int));
    } else {
        assert(s.take(s.len() as int) =~= s);
    }
}

/// A trimmed text has no white space at either end.
pub proof fn trimmed_ends(s: Seq<char>)
    ensures
        trimmed(s).len() > 0 ==> !is_white_space(trimmed(s)[0]) && !is_white_space(trimmed(s).last()),
{
    drop_front_ends(s, space());
    let a = drop_front(s, space());
    drop_back_ends(a, space());
}

/// A text without white space at either end is its own trimmed form.
pub proof fn trimmed_is(s: Seq<char>)
    requires
        s.len() > 0 ==> !is_white_space(s[0]) && !is_white_space(s.last()),
    ensures
        trimmed(s) == s,
{
}

/// Trimming twice is the same as trimming once.
pub proof fn trimmed_idempotent(s: Seq<char>)
    ensures
        trimmed(trimmed(s)) == trimmed(s),
{
    trimmed_ends(s);
    trimmed_is(trimmed(s));
}

/// Drops the run at the front of `v` for which `f` holds.
pub(crate) fn cut_front<F: Fn(char) -> bool>(v: &[char], f: F, Ghost(p): Ghost<spec_fn(char) -> bool>) -> (r: Vec<char>)
    requires
        forall|c: char| #[trigger] f.requires((c,)),
        forall|c: char, b: bool| #[trigger] f.ensures((c,), b) ==> b == p(c),
    ensures
        r@ == drop_front(v@, p),
{
    let mut i: usize = 0;
    assert(v@.skip(0) =~= v@);
    while i < v.len() && f(v[i])
        invariant
            i <= v@.len(),
            forall|c: char| #[trigger] f.requires((c,)),
            forall|c: char, b: bool| #[trigger] f.ensures((c,), b) ==> b == p(c),
            drop_front(v@, p) == drop_front(v@.skip(i as int), p),
        decreases v@.len() - i,
    {
        assert(v@.skip(i as int).drop_first() =~= v@.skip(i + 1));
        i = i + 1;
    }
    let r = vstd::slice::slice_to_vec(vstd::slice::slice_subrange(v, i, v.len()));
    assert(r@ =~= v@.skip(i as int));
    r
}

/// Drops the run at the back of `v` for which `f` holds.
pub(crate) fn cut_back<F: Fn(char) -> bool>(v: &[char], f: F, Ghost(p): Ghost<spec_fn(char) -> bool>) -> (r: Vec<char>)
    requires
        forall|c: char| #[trigger] f.requires((c,)),
        forall|c: char, b: bool| #[trigger] f.ensures((c,), b) ==> b == p(c),
    ensures
        r@ == drop_back(v@, p),
{
    let mut n: usize = v.len();
    assert(v@.take(n as int) =~= v@);
    while n > 0 && f(v[n - 1])
        invariant
            n <= v@.len(),
            forall|c: char| #[trigger] f.requires((c,)),
            forall|c: char, b: bool| #[trigger] f.ensures((c,), b) ==> b == p(c),
            drop_back(v@, p) == drop_back(v@.take(n as int), p),
        decreases n,
    {
        assert(v@.take(n as int).drop_last() =~= v@.take(n - 1));
        n = n - 1;
    }
    let r = vstd::slice::slice_to_vec(vstd::slice::slice_subrange(v, 0, n));
    assert(r@ =~= v@.take(n as int));
    r
}

/// Removes white space at both ends.
pub fn trim(s: &str) -> (r: String)
    ensures
        r@ == trimmed(s@),
{
    let v = chars_of(s);
    let a = cut_front(v.as_slice(), |c: char| -> (b: bool)
        ensures b == is_white_space(c)
        { white_space(c) }, Ghost(space()));
    let b = cut_back(a.as_slice(), |c: char| -> (b: bool)
        ensures b == is_white_space(c)
        { white_space(c) }, Ghost(space()));
    text_of(b.as_slice())
}

/// Removes every leading `k`.
pub fn trim_start_of(s: &str, k: char) -> (r: String)
    ensures
        r@ == drop_front(s@, only(k)),
{
    let v = chars_of(s);
    let a = cut_front(v.as_slice(), |c: char| -> (b: bool)
        ensures b == (c == k)
        { c == k }, Ghost(only(k)));
    text_of(a.as_slice())
}

/// Removes every trailing `k`.
pub fn trim_end_of(s: &str, k: char) -> (r: String)
    ensures
        r@ == drop_back(s@, only(k)),
{
    let v = chars_of(s);
    let a = cut_back(v.as_slice(), |c: char| -> (b: bool)
        ensures b == (c == k)
        { c == k }, Ghost(only(k)));
    text_of(a.as_slice())
}

/// Whether nothing but white space is there.
pub open spec fn is_blank(s: Seq<char>) -> bool {
    trimmed(s).len() == 0
}

/// Whether a text is nothing but white space.
pub fn blank(s: &str) -> (r: bool)
    ensures
        r == is_blank(s@),
{
    trim(s).as_str().is_empty()
}

/// What an optional text holds without the white space around it, if that is anything.
pub open spec fn filled(o: Option<Seq<char>>) -> Option<Seq<char>> {
    match o {
        Some(s) => if is_blank(s) {
            None
        } else {
            Some(trimmed(s))
        },
        None => None,
    }
}

/// What an optional text holds without the white space around it, if that is anything.
pub fn filled_text(o: Option<&str>) -> (r: Option<String>)
    ensures
        opt_text(r) == filled(opt_str(o)),
{
    match o {
        Some(s) => if blank(s) {
            None
        } else {
            Some(trim(s))
        },
        None => None,
    }
}

/// The capitals of ASCII have small letters, thirty-two places behind them, and back; any other character stays
/// as it is.
pub proof fn letters_have_two_cases(c: char)
    ensures
        'A' <= c <= 'Z' ==> lower(c) as int == c as int + 32 && upper(lower(c)) == c,
        'a' <= c <= 'z' ==> upper(c) as int == c as int - 32 && lower(upper(c)) == c,
        !('A' <= c <= 'Z') ==> lower(c) == c,
        !('a' <= c <= 'z') ==> upper(c) == c,
        lower(lower(c)) == lower(c) && upper(upper(c)) == upper(c),
{
}

/// What is left of a text without the space around it is a part of it with no space at its ends, and nothing but
/// space is taken away.
pub proof fn only_space_is_trimmed(front: Seq<char>, s: Seq<char>, back: Seq<char>)
    requires
        forall|i: int| 0 <= i < front.len() ==> is_white_space(#[trigger] front[i]),
        forall|i: int| 0 <= i < back.len() ==> is_white_space(#[trigger] back[i]),
        s.len() > 0,
        !is_white_space(s[0]),
        !is_white_space(s.last()),
    ensures
        trimmed(front + s + back) == s,
    decreases front.len() + back.len(),
{
    let p = space();
    let all = front + s + back;
    if front.len() > 0 {
        let f = front.drop_first();
        assert(all[0] == front[0]);
        assert(p(all[0]));
        assert(all.drop_first() =~= f + s + back);
        assert forall|i: int| 0 <= i < f.len() implies is_white_space(#[trigger] f[i]) by {
            assert(f[i] == front[i + 1]);
        }
        only_space_is_trimmed(f, s, back);
    } else {
        assert(all[0] == s[0]);
        assert(drop_front(all, p) == all);
        space_behind_goes(s, back);
        assert(all =~= s + back);
    }
}

proof fn space_behind_goes(s: Seq<char>, back: Seq<char>)
    requires
        forall|i: int| 0 <= i < back.len() ==> is_white_space(#[trigger] back[i]),
        s.len() > 0,
        !is_white_space(s.last()),
    ensures
        drop_back(s + back, space()) == s,
    decreases back.len(),
{
    let p = space();
    let all = s + back;
    if back.len() > 0 {
        let b = back.drop_last();
        assert(all.last() == back[back.len() - 1]);
        assert(p(all.last()));
        assert(all.drop_last() =~= s + b);
        assert forall|i: int| 0 <= i < b.len() implies is_white_space(#[trigger] b[i]) by {
            assert(b[i] == back[i]);
        }
        space_behind_goes(s, b);
    } else {
        assert(all =~= s);
    }
}

/// A text that is filled is told without the space around it; a blank one, and none, is none.
pub proof fn filled_texts_are_told(s: Seq<char>)
    ensures
        trimmed(s).len() > 0 ==> filled(Some(s)) == Some(trimmed(s)),
        trimmed(s).len() == 0 ==> filled(Some(s)) is None,
        filled(None) is None,
{
}

/// Letters, digits and hexadecimal digits are those of ASCII.
pub proof fn characters_have_classes(c: char)
    ensures
        is_digit(c) <==> 48 <= c as int <= 57,
        is_upper(c) <==> 65 <= c as int <= 90,
        is_lower(c) <==> 97 <= c as int <= 122,
        is_alnum(c) <==> 48 <= c as int <= 57 || 65 <= c as int <= 90 || 97 <= c as int <= 122,
        is_hex_digit(c) <==> 48 <= c as int <= 57 || 65 <= c as int <= 70 || 97 <= c as int <= 102,
        is_ascii_space(c) <==> c as int == 32 || c as int == 9 || c as int == 10 || c as int == 12 || c as int
            == 13,
        is_ascii_space(c) ==> is_white_space(c),
        is_alnum(c) ==> !is_white_space(c),
        (c as int) < 128 ==> (is_white_space(c) <==> c as int == 32 || 9 <= c as int <= 13),
{
}

/// Two texts are the same apart from case where they are as long as each other and each character is.
pub proof fn case_does_not_matter(a: Seq<char>, b: Seq<char>)
    ensures
        same_ignoring_case(a, b) <==> a.len() == b.len() && (forall|i: int|
            0 <= i < a.len() ==> lower(#[trigger] a[i]) == lower(b[i])),
        same_ignoring_case(a, a),
        same_ignoring_case(a, b) <==> same_ignoring_case(b, a),
        same_ignoring_case(lower_text(a), upper_text(a)),
{
    if same_ignoring_case(a, b) {
        assert(lower_text(a).len() == a.len() && lower_text(b).len() == b.len());
        assert forall|i: int| 0 <= i < a.len() implies lower(#[trigger] a[i]) == lower(b[i]) by {
            assert(lower_text(a)[i] == lower_text(b)[i]);
        }
    }
    if a.len() == b.len() && (forall|i: int| 0 <= i < a.len() ==> lower(#[trigger] a[i]) == lower(b[i])) {
        assert(lower_text(a) =~= lower_text(b));
    }
    assert(lower_text(lower_text(a)) =~= lower_text(upper_text(a))) by {
        assert forall|i: int| 0 <= i < a.len() implies lower(lower(#[trigger] a[i])) == lower(
            upper(a[i]),
        ) by {
            letters_have_two_cases(a[i]);
        }
    }
}

/// The bytes of a text are those of its characters: one for ASCII, and up to four for others.
pub proof fn bytes_add_up(s: Seq<char>, c: char)
    ensures
        byte_len(s.push(c)) == byte_len(s) + width(c),
        byte_len(Seq::empty()) == 0,
        (c as int) < 0x80 ==> width(c) == 1,
        0x80 <= c as int && (c as int) < 0x800 ==> width(c) == 2,
        0x800 <= c as int && (c as int) < 0x10000 ==> width(c) == 3,
        0x10000 <= c as int ==> width(c) == 4,
{
    assert(s.push(c).drop_last() =~= s);
}

} // verus!
