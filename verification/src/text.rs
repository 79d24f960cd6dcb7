//! Text as sequences of characters: the operations on strings that the rest of
//! the library is built from, each proved against a direct statement.

use vstd::prelude::*;

verus! {

/// `String::push`: the character is appended at the end.
pub assume_specification[ String::push ](s: &mut String, c: char)
    ensures
        final(s)@ == old(s)@.push(c),
;

/// `String::push_str`: the text is appended at the end.
pub assume_specification[ String::push_str ](s: &mut String, other: &str)
    ensures
        final(s)@ == old(s)@ + other@,
;

/// The characters of each text of a list.
pub open spec fn views(list: Seq<String>) -> Seq<Seq<char>> {
    Seq::new(list.len(), |i: int| list[i]@)
}

/// The characters with the Unicode property `White_Space`.
pub open spec fn white(c: char) -> bool {
    ||| '\u{9}' <= c <= '\u{d}'
    ||| c == ' '
    ||| c == '\u{85}'
    ||| c == '\u{a0}'
    ||| c == '\u{1680}'
    ||| '\u{2000}' <= c <= '\u{200a}'
    ||| c == '\u{2028}'
    ||| c == '\u{2029}'
    ||| c == '\u{202f}'
    ||| c == '\u{205f}'
    ||| c == '\u{3000}'
}

pub open spec fn digit(c: char) -> bool {
    '0' <= c <= '9'
}

pub open spec fn alphanumeric(c: char) -> bool {
    digit(c) || 'a' <= c <= 'z' || 'A' <= c <= 'Z'
}

/// A character with its ASCII upper case turned into lower case.
pub open spec fn lower(c: char) -> char {
    if 'A' <= c <= 'Z' {
        (c as u8 + 32) as char
    } else {
        c
    }
}

pub open spec fn lowercase(s: Seq<char>) -> Seq<char> {
    Seq::new(s.len(), |i: int| lower(s[i]))
}

pub open spec fn starts(s: Seq<char>, p: Seq<char>) -> bool {
    p.len() <= s.len() && s.subrange(0, p.len() as int) == p
}

pub open spec fn ends(s: Seq<char>, p: Seq<char>) -> bool {
    p.len() <= s.len() && s.subrange(s.len() - p.len(), s.len() as int) == p
}

/// `p` stands in `s` at position `i`.
pub open spec fn stands_at(s: Seq<char>, p: Seq<char>, i: int) -> bool {
    0 <= i && i + p.len() <= s.len() && s.subrange(i, i + p.len()) == p
}

pub open spec fn has_text(s: Seq<char>, p: Seq<char>) -> bool {
    exists|i: int| stands_at(s, p, i)
}

pub open spec fn without_prefix(s: Seq<char>, p: Seq<char>) -> Seq<char> {
    s.subrange(p.len() as int, s.len() as int)
}

pub open spec fn without_suffix(s: Seq<char>, p: Seq<char>) -> Seq<char> {
    s.subrange(0, s.len() - p.len())
}

/// The text without the white space that it starts with.
pub open spec fn trim_start(s: Seq<char>) -> Seq<char>
    decreases s.len(),
{
    if s.len() > 0 && white(s[0]) {
        trim_start(s.subrange(1, s.len() as int))
    } else {
        s
    }
}

/// The text without the white space that it ends with.
pub open spec fn trim_end(s: Seq<char>) -> Seq<char>
    decreases s.len(),
{
    if s.len() > 0 && white(s.last()) {
        trim_end(s.drop_last())
    } else {
        s
    }
}

pub open spec fn trimmed(s: Seq<char>) -> Seq<char> {
    trim_end(trim_start(s))
}

/// The pieces of a text between the occurrences of a character.
pub open spec fn pieces(s: Seq<char>, c: char) -> Seq<Seq<char>>
    decreases s.len(),
{
    if s.len() == 0 {
        seq![Seq::<char>::empty()]
    } else {
        let init = pieces(s.drop_last(), c);
        if s.last() == c {
            init.push(Seq::<char>::empty())
        } else {
            init.drop_last().push(init.last().push(s.last()))
        }
    }
}

/// The texts of a list one after the other, with a separator between two.
pub open spec fn joined(list: Seq<Seq<char>>, sep: Seq<char>) -> Seq<char>
    decreases list.len(),
{
    if list.len() == 0 {
        Seq::<char>::empty()
    } else if list.len() == 1 {
        list[0]
    } else {
        joined(list.drop_last(), sep) + sep + list.last()
    }
}

/// The text with each occurrence of a character replaced by another text.
pub open spec fn replaced(s: Seq<char>, c: char, by: Seq<char>) -> Seq<char>
    decreases s.len(),
{
    if s.len() == 0 {
        Seq::<char>::empty()
    } else if s.last() == c {
        replaced(s.drop_last(), c, by) + by
    } else {
        replaced(s.drop_last(), c, by).push(s.last())
    }
}

pub fn is_whitespace(c: char) -> (r: bool)
    ensures
        r == white(c),
{
    ('\u{9}' <= c && c <= '\u{d}') || c == ' ' || c == '\u{85}' || c == '\u{a0}' || c == '\u{1680}'
        || ('\u{2000}' <= c && c <= '\u{200a}') || c == '\u{2028}' || c == '\u{2029}' || c
        == '\u{202f}' || c == '\u{205f}' || c == '\u{3000}'
}

pub fn is_digit(c: char) -> (r: bool)
    ensures
        r == digit(c),
{
    '0' <= c && c <= '9'
}

pub fn is_alphanumeric(c: char) -> (r: bool)
    ensures
        r == alphanumeric(c),
{
    is_digit(c) || ('a' <= c && c <= 'z') || ('A' <= c && c <= 'Z')
}

pub fn to_lower(c: char) -> (r: char)
    ensures
        r == lower(c),
{
    if 'A' <= c && c <= 'Z' {
        (c as u8 + 32) as char
    } else {
        c
    }
}

/// The characters of a text, one by one.
pub fn chars_of(s: &str) -> (r: Vec<char>)
    ensures
        r@ == s@,
{
    let mut out: Vec<char> = Vec::new();
    for c in it: s.chars()
        invariant
            out@ == it.seq().take(it.index() as int),
            it.seq() == s@,
    {
        out.push(c);
    }
    out
}

/// The text that a slice of characters spells.
pub fn text_of(chars: &Vec<char>, from: usize, to: usize) -> (r: String)
    requires
        from <= to <= chars.len(),
    ensures
        r@ == chars@.subrange(from as int, to as int),
{
    let mut out = String::new();
    let mut i: usize = from;
    while i < to
        invariant
            from <= i <= to <= chars.len(),
            out@ == chars@.subrange(from as int, i as int),
        decreases to - i,
    {
        out.push(chars[i]);
        i = i + 1;
    }
    out
}

/// Whether two texts are the same.
pub fn same(a: &str, b: &str) -> (r: bool)
    ensures
        r == (a@ == b@),
{
    let x = chars_of(a);
    let y = chars_of(b);
    if x.len() != y.len() {
        return false;
    }
    let mut i: usize = 0;
    while i < x.len()
        invariant
            i <= x.len(),
            x.len() == y.len(),
            x@ == a@,
            y@ == b@,
            forall|k: int| 0 <= k < i ==> x@[k] == y@[k],
        decreases x.len() - i,
    {
        if x[i] != y[i] {
            return false;
        }
        i = i + 1;
    }
    assert(x@ =~= y@);
    true
}

/// Whether the characters of `p` stand in `s` from position `at` on.
fn matches_at(s: &Vec<char>, p: &Vec<char>, at: usize) -> (r: bool)
    requires
        at + p.len() <= s.len(),
    ensures
        r == stands_at(s@, p@, at as int),
{
    let mut i: usize = 0;
    while i < p.len()
        invariant
            i <= p.len(),
            at + p.len() <= s.len(),
            forall|k: int| 0 <= k < i ==> s@[at + k] == p@[k],
        decreases p.len() - i,
    {
        if s[at + i] != p[i] {
            assert(s@.subrange(at as int, at + p@.len())[i as int] != p@[i as int]);
            return false;
        }
        i = i + 1;
    }
    assert(s@.subrange(at as int, at + p@.len()) =~= p@);
    true
}

pub fn starts_with(s: &str, p: &str) -> (r: bool)
    ensures
        r == starts(s@, p@),
{
    let a = chars_of(s);
    let b = chars_of(p);
    if b.len() > a.len() {
        return false;
    }
    matches_at(&a, &b, 0)
}

pub fn ends_with(s: &str, p: &str) -> (r: bool)
    ensures
        r == ends(s@, p@),
{
    let a = chars_of(s);
    let b = chars_of(p);
    if b.len() > a.len() {
        return false;
    }
    matches_at(&a, &b, a.len() - b.len())
}

pub fn contains(s: &str, p: &str) -> (r: bool)
    ensures
        r == has_text(s@, p@),
{
    let a = chars_of(s);
    let b = chars_of(p);
    if b.len() > a.len() {
        return false;
    }
    let last: usize = a.len() - b.len();
    let mut i: usize = 0;
    while i < last
        invariant
            a@ == s@,
            b@ == p@,
            last == a.len() - b.len(),
            i <= last,
            forall|k: int| 0 <= k < i ==> !stands_at(s@, p@, k),
        decreases last - i,
    {
        if matches_at(&a, &b, i) {
            return true;
        }
        i = i + 1;
    }
    matches_at(&a, &b, last)
}

pub fn contains_char(s: &str, c: char) -> (r: bool)
    ensures
        r == s@.contains(c),
{
    let a = chars_of(s);
    let mut i: usize = 0;
    while i < a.len()
        invariant
            a@ == s@,
            i <= a.len(),
            forall|k: int| 0 <= k < i ==> a@[k] != c,
        decreases a.len() - i,
    {
        if a[i] == c {
            return true;
        }
        i = i + 1;
    }
    false
}

/// What follows the prefix `p`, where the text starts with it.
pub fn strip_prefix(s: &str, p: &str) -> (r: Option<String>)
    ensures
        r matches Some(rest) ==> starts(s@, p@) && rest@ == without_prefix(s@, p@),
        r is None ==> !starts(s@, p@),
{
    let a = chars_of(s);
    let b = chars_of(p);
    if b.len() > a.len() || !matches_at(&a, &b, 0) {
        return None;
    }
    Some(text_of(&a, b.len(), a.len()))
}

/// What stands before the suffix `p`, where the text ends with it.
pub fn strip_suffix(s: &str, p: &str) -> (r: Option<String>)
    ensures
        r matches Some(rest) ==> ends(s@, p@) && rest@ == without_suffix(s@, p@),
        r is None ==> !ends(s@, p@),
{
    let a = chars_of(s);
    let b = chars_of(p);
    if b.len() > a.len() || !matches_at(&a, &b, a.len() - b.len()) {
        return None;
    }
    Some(text_of(&a, 0, a.len() - b.len()))
}

pub fn to_lowercase(s: &str) -> (r: String)
    ensures
        r@ == lowercase(s@),
{
    let a = chars_of(s);
    let mut out = String::new();
    let mut i: usize = 0;
    while i < a.len()
        invariant
            a@ == s@,
            i <= a.len(),
            out@ == lowercase(s@).take(i as int),
        decreases a.len() - i,
    {
        out.push(to_lower(a[i]));
        i = i + 1;
    }
    out
}

pub fn trim(s: &str) -> (r: String)
    ensures
        r@ == trimmed(s@),
{
    let a = chars_of(s);
    let mut i: usize = 0;
    assert(s@.subrange(0, s@.len() as int) =~= s@);
    while i < a.len() && is_whitespace(a[i])
        invariant
            a@ == s@,
            i <= a.len(),
            trim_start(s@) == trim_start(s@.subrange(i as int, s@.len() as int)),
        decreases a.len() - i,
    {
        assert(s@.subrange(i as int, s@.len() as int).subrange(
            1,
            s@.len() - i,
        ) =~= s@.subrange(i + 1, s@.len() as int));
        i = i + 1;
    }
    let ghost rest = s@.subrange(i as int, s@.len() as int);
    assert(trim_start(s@) == rest);
    let mut j: usize = a.len();
    while j > i && is_whitespace(a[j - 1])
        invariant
            a@ == s@,
            i <= j <= a.len(),
            rest == s@.subrange(i as int, s@.len() as int),
            trim_end(rest) == trim_end(s@.subrange(i as int, j as int)),
        decreases j,
    {
        assert(s@.subrange(i as int, j as int).drop_last() =~= s@.subrange(i as int, j - 1));
        j = j - 1;
    }
    text_of(&a, i, j)
}

/// Cuts a text at each occurrence of a character.
pub fn split(s: &str, c: char) -> (r: Vec<String>)
    ensures
        views(r@) == pieces(s@, c),
        r.len() >= 1,
{
    let a = chars_of(s);
    let mut out: Vec<String> = Vec::new();
    let mut piece = String::new();
    let mut i: usize = 0;
    assert(views(out@).push(piece@) =~= pieces(s@.take(0), c));
    while i < a.len()
        invariant
            a@ == s@,
            i <= a.len(),
            views(out@).push(piece@) == pieces(s@.take(i as int), c),
        decreases a.len() - i,
    {
        let ghost before = pieces(s@.take(i as int), c);
        assert(s@.take(i + 1).drop_last() =~= s@.take(i as int));
        assert(before.drop_last() =~= views(out@));
        if a[i] == c {
            out.push(piece);
            assert(views(out@) =~= before);
            piece = String::new();
        } else {
            piece.push(a[i]);
        }
        i = i + 1;
    }
    assert(s@.take(s@.len() as int) =~= s@);
    let ghost old_out = out@;
    let ghost last = piece@;
    out.push(piece);
    assert(views(out@) =~= views(old_out).push(last));
    out
}

pub fn join(list: &Vec<String>, sep: &str) -> (r: String)
    ensures
        r@ == joined(views(list@), sep@),
{
    let mut out = String::new();
    let ghost all = views(list@);
    let mut i: usize = 0;
    while i < list.len()
        invariant
            i <= list.len(),
            all == views(list@),
            out@ == joined(all.take(i as int), sep@),
        decreases list.len() - i,
    {
        assert(all.take(i + 1).drop_last() =~= all.take(i as int));
        if i > 0 {
            out.push_str(sep);
        }
        out.push_str(list[i].as_str());
        assert(i == 0 ==> out@ =~= all[0]);
        i = i + 1;
    }
    assert(all.take(all.len() as int) =~= all);
    out
}

pub fn replace_char(s: &str, c: char, by: &str) -> (r: String)
    ensures
        r@ == replaced(s@, c, by@),
{
    let a = chars_of(s);
    let mut out = String::new();
    let mut i: usize = 0;
    while i < a.len()
        invariant
            a@ == s@,
            i <= a.len(),
            out@ == replaced(s@.take(i as int), c, by@),
        decreases a.len() - i,
    {
        assert(s@.take(i + 1).drop_last() =~= s@.take(i as int));
        if a[i] == c {
            out.push_str(by);
        } else {
            out.push(a[i]);
        }
        i = i + 1;
    }
    assert(s@.take(s@.len() as int) =~= s@);
    out
}

pub fn cat2(a: &str, b: &str) -> (r: String)
    ensures
        r@ == a@ + b@,
{
    let mut out = a.to_owned();
    out.push_str(b);
    out
}

pub fn cat3(a: &str, b: &str, c: &str) -> (r: String)
    ensures
        r@ == a@ + b@ + c@,
{
    let mut out = cat2(a, b);
    out.push_str(c);
    out
}

pub fn cat4(a: &str, b: &str, c: &str, d: &str) -> (r: String)
    ensures
        r@ == a@ + b@ + c@ + d@,
{
    let mut out = cat3(a, b, c);
    out.push_str(d);
    out
}

pub fn cat5(a: &str, b: &str, c: &str, d: &str, e: &str) -> (r: String)
    ensures
        r@ == a@ + b@ + c@ + d@ + e@,
{
    let mut out = cat4(a, b, c, d);
    out.push_str(e);
    out
}

/// The copy of a list of texts.
pub fn clone_texts(list: &Vec<String>) -> (r: Vec<String>)
    ensures
        views(r@) == views(list@),
{
    let mut out: Vec<String> = Vec::new();
    let mut i: usize = 0;
    while i < list.len()
        invariant
            i <= list.len(),
            views(out@) == views(list@).take(i as int),
        decreases list.len() - i,
    {
        let s = list[i].clone();
        let ghost before = out@;
        out.push(s);
        assert(views(out@) =~= views(before).push(s@));
        i = i + 1;
    }
    assert(views(list@).take(list@.len() as int) =~= views(list@));
    out
}

/// Whether two lists of texts are the same.
pub fn same_texts(a: &Vec<String>, b: &Vec<String>) -> (r: bool)
    ensures
        r == (views(a@) == views(b@)),
{
    if a.len() != b.len() {
        assert(views(a@).len() != views(b@).len());
        return false;
    }
    let mut i: usize = 0;
    while i < a.len()
        invariant
            i <= a.len(),
            a.len() == b.len(),
            forall|k: int| 0 <= k < i ==> views(a@)[k] == views(b@)[k],
        decreases a.len() - i,
    {
        if !same(a[i].as_str(), b[i].as_str()) {
            assert(views(a@)[i as int] != views(b@)[i as int]);
            return false;
        }
        i = i + 1;
    }
    assert(views(a@) =~= views(b@));
    true
}

/// The characters of a text that may be missing.
pub open spec fn opt_view(s: Option<String>) -> Option<Seq<char>> {
    match s {
        Some(t) => Some(t@),
        None => None,
    }
}

/// A result with the characters of its error.
pub open spec fn err_view<T>(r: Result<T, String>) -> Result<T, Seq<char>> {
    match r {
        Ok(v) => Ok(v),
        Err(e) => Err(e@),
    }
}

pub fn clone_opt(s: &Option<String>) -> (r: Option<String>)
    ensures
        opt_view(r) == opt_view(*s),
{
    match s {
        Some(t) => Some(t.clone()),
        None => None,
    }
}

/// A text without white space at either end is trimmed already.
pub proof fn trimmed_keeps(s: Seq<char>)
    requires
        s.len() > 0 ==> !white(s[0]) && !white(s.last()),
    ensures
        trimmed(s) == s,
{
}

/// A text does not grow when white space is taken from around it.
pub proof fn trimming_never_grows(s: Seq<char>)
    ensures
        trimmed(s).len() <= s.len(),
{
    trim_start_never_grows(s);
    trim_end_never_grows(trim_start(s));
}

proof fn trim_start_never_grows(s: Seq<char>)
    ensures
        trim_start(s).len() <= s.len(),
    decreases s.len(),
{
    if s.len() > 0 && white(s[0]) {
        trim_start_never_grows(s.subrange(1, s.len() as int));
    }
}

proof fn trim_end_never_grows(s: Seq<char>)
    ensures
        trim_end(s).len() <= s.len(),
    decreases s.len(),
{
    if s.len() > 0 && white(s.last()) {
        trim_end_never_grows(s.drop_last());
    }
}

/// Lower case has no upper case left in it.
pub proof fn lowercase_twice(s: Seq<char>)
    ensures
        lowercase(lowercase(s)) == lowercase(s),
{
    assert(lowercase(lowercase(s)) =~= lowercase(s));
}

/// The order of texts: by the first character that differs, and a text before its
/// continuations.
pub open spec fn precedes(a: Seq<char>, b: Seq<char>) -> bool
    decreases a.len(),
{
    if b.len() == 0 {
        false
    } else if a.len() == 0 {
        true
    } else if a[0] != b[0] {
        a[0] < b[0]
    } else {
        precedes(a.subrange(1, a.len() as int), b.subrange(1, b.len() as int))
    }
}

pub proof fn precedes_is_transitive(a: Seq<char>, b: Seq<char>, c: Seq<char>)
    requires
        precedes(a, b),
        precedes(b, c),
    ensures
        precedes(a, c),
    decreases a.len(),
{
    if a.len() > 0 && a[0] == b[0] && b[0] == c[0] {
        precedes_is_transitive(
            a.subrange(1, a.len() as int),
            b.subrange(1, b.len() as int),
            c.subrange(1, c.len() as int),
        );
    }
}

/// Of two texts exactly one comes first, unless they are the same.
pub proof fn precedes_is_total(a: Seq<char>, b: Seq<char>)
    ensures
        a == b ==> !precedes(a, b),
        a != b ==> precedes(a, b) != precedes(b, a),
    decreases a.len(),
{
    if a.len() > 0 && b.len() > 0 && a[0] == b[0] {
        let x = a.subrange(1, a.len() as int);
        let y = b.subrange(1, b.len() as int);
        precedes_is_total(x, y);
        if a != b {
            assert(x != y) by {
                if x == y {
                    assert forall|i: int| 0 <= i < a.len() implies a[i] == b[i] by {
                        if i > 0 {
                            assert(x[i - 1] == y[i - 1]);
                        }
                    }
                    assert(a =~= b);
                }
            }
        }
    } else if a.len() == 0 && b.len() == 0 {
        assert(a =~= b);
    }
}

/// Whether a text comes before another.
pub fn less(a: &str, b: &str) -> (r: bool)
    ensures
        r == precedes(a@, b@),
{
    let x = chars_of(a);
    let y = chars_of(b);
    let mut i: usize = 0;
    assert(a@.subrange(0, a@.len() as int) =~= a@);
    assert(b@.subrange(0, b@.len() as int) =~= b@);
    while i < x.len() && i < y.len() && x[i] == y[i]
        invariant
            x@ == a@,
            y@ == b@,
            i <= x.len(),
            i <= y.len(),
            precedes(a@, b@) == precedes(
                a@.subrange(i as int, a@.len() as int),
                b@.subrange(i as int, b@.len() as int),
            ),
        decreases x.len() - i,
    {
        let ghost u = a@.subrange(i as int, a@.len() as int);
        let ghost v = b@.subrange(i as int, b@.len() as int);
        assert(u.subrange(1, u.len() as int) =~= a@.subrange(i + 1, a@.len() as int));
        assert(v.subrange(1, v.len() as int) =~= b@.subrange(i + 1, b@.len() as int));
        i = i + 1;
    }
    if i >= y.len() {
        false
    } else if i >= x.len() {
        true
    } else {
        x[i] < y[i]
    }
}

/// The text without the occurrences of a character that it starts with.
pub open spec fn shed_start(s: Seq<char>, c: char) -> Seq<char>
    decreases s.len(),
{
    if s.len() > 0 && s[0] == c {
        shed_start(s.subrange(1, s.len() as int), c)
    } else {
        s
    }
}

/// The text without the occurrences of a character that it ends with.
pub open spec fn shed_end(s: Seq<char>, c: char) -> Seq<char>
    decreases s.len(),
{
    if s.len() > 0 && s.last() == c {
        shed_end(s.drop_last(), c)
    } else {
        s
    }
}

/// The text without the occurrences of a character at either end.
pub open spec fn shed(s: Seq<char>, c: char) -> Seq<char> {
    shed_end(shed_start(s, c), c)
}

pub fn trim_end_matches(s: &str, c: char) -> (r: String)
    ensures
        r@ == shed_end(s@, c),
{
    let a = chars_of(s);
    let mut j: usize = a.len();
    assert(s@.take(s@.len() as int) =~= s@);
    while j > 0 && a[j - 1] == c
        invariant
            a@ == s@,
            j <= a.len(),
            shed_end(s@, c) == shed_end(s@.take(j as int), c),
        decreases j,
    {
        assert(s@.take(j as int).drop_last() =~= s@.take(j - 1));
        j = j - 1;
    }
    text_of(&a, 0, j)
}

pub fn trim_start_matches(s: &str, c: char) -> (r: String)
    ensures
        r@ == shed_start(s@, c),
{
    let a = chars_of(s);
    let mut i: usize = 0;
    assert(s@.subrange(0, s@.len() as int) =~= s@);
    while i < a.len() && a[i] == c
        invariant
            a@ == s@,
            i <= a.len(),
            shed_start(s@, c) == shed_start(s@.subrange(i as int, s@.len() as int), c),
        decreases a.len() - i,
    {
        assert(s@.subrange(i as int, s@.len() as int).subrange(
            1,
            s@.len() - i,
        ) =~= s@.subrange(i + 1, s@.len() as int));
        i = i + 1;
    }
    text_of(&a, i, a.len())
}

pub fn trim_matches(s: &str, c: char) -> (r: String)
    ensures
        r@ == shed(s@, c),
{
    let head = trim_start_matches(s, c);
    trim_end_matches(head.as_str(), c)
}

/// The first characters of a text, as many as there are up to a limit.
pub open spec fn first_chars(s: Seq<char>, limit: nat) -> Seq<char> {
    if s.len() <= limit {
        s
    } else {
        s.take(limit as int)
    }
}

pub fn take_chars(s: &str, limit: usize) -> (r: String)
    ensures
        r@ == first_chars(s@, limit as nat),
{
    let a = chars_of(s);
    if a.len() <= limit {
        assert(s@.subrange(0, s@.len() as int) =~= s@);
        text_of(&a, 0, a.len())
    } else {
        text_of(&a, 0, limit)
    }
}

/// The position of the first occurrence of a character; the length where there is none.
pub open spec fn first_at(s: Seq<char>, c: char) -> int
    decreases s.len(),
{
    if s.len() == 0 || s[0] == c {
        0
    } else {
        1 + first_at(s.subrange(1, s.len() as int), c)
    }
}

/// What stands before and behind the first occurrence of a character.
pub open spec fn cut_once(s: Seq<char>, c: char) -> Option<(Seq<char>, Seq<char>)> {
    let k = first_at(s, c);
    if k < s.len() {
        Some((s.subrange(0, k), s.subrange(k + 1, s.len() as int)))
    } else {
        None
    }
}

fn find_char(a: &Vec<char>, c: char) -> (r: usize)
    ensures
        r == first_at(a@, c),
        r <= a.len(),
{
    let mut i: usize = 0;
    assert(a@.subrange(0, a@.len() as int) =~= a@);
    while i < a.len() && a[i] != c
        invariant
            i <= a.len(),
            first_at(a@, c) == i + first_at(a@.subrange(i as int, a@.len() as int), c),
        decreases a.len() - i,
    {
        assert(a@.subrange(i as int, a@.len() as int).subrange(
            1,
            a@.len() - i,
        ) =~= a@.subrange(i + 1, a@.len() as int));
        i = i + 1;
    }
    i
}

pub fn split_once(s: &str, c: char) -> (r: Option<(String, String)>)
    ensures
        match r {
            Some(parts) => cut_once(s@, c) == Some((parts.0@, parts.1@)),
            None => cut_once(s@, c) is None,
        },
{
    let a = chars_of(s);
    let k: usize = find_char(&a, c);
    if k < a.len() {
        Some((text_of(&a, 0, k), text_of(&a, k + 1, a.len())))
    } else {
        None
    }
}

/// Whether two texts are the same but for the case of ASCII letters.
pub fn same_ignoring_case(a: &str, b: &str) -> (r: bool)
    ensures
        r == (lowercase(a@) == lowercase(b@)),
{
    let x = to_lowercase(a);
    let y = to_lowercase(b);
    same(x.as_str(), y.as_str())
}

/// The characters before the first white space.
pub open spec fn until_white(s: Seq<char>) -> Seq<char>
    decreases s.len(),
{
    if s.len() == 0 || white(s[0]) {
        Seq::<char>::empty()
    } else {
        seq![s[0]] + until_white(s.subrange(1, s.len() as int))
    }
}

/// The first of the words that white space separates; empty where there is none.
pub open spec fn first_word(s: Seq<char>) -> Seq<char> {
    until_white(trim_start(s))
}

proof fn until_white_is(s: Seq<char>, k: int)
    requires
        0 <= k <= s.len(),
        forall|i: int| 0 <= i < k ==> !white(#[trigger] s[i]),
        k < s.len() ==> white(s[k]),
    ensures
        until_white(s) == s.subrange(0, k),
    decreases k,
{
    if k > 0 {
        let rest = s.subrange(1, s.len() as int);
        assert forall|i: int| 0 <= i < k - 1 implies !white(#[trigger] rest[i]) by {
            assert(rest[i] == s[i + 1]);
        }
        until_white_is(rest, k - 1);
        assert(seq![s[0]] + rest.subrange(0, k - 1) =~= s.subrange(0, k));
    } else {
        assert(s.subrange(0, 0) =~= Seq::<char>::empty());
    }
}

pub fn take_first_word(s: &str) -> (r: String)
    ensures
        r@ == first_word(s@),
{
    let a = chars_of(s);
    let mut i: usize = 0;
    assert(s@.subrange(0, s@.len() as int) =~= s@);
    while i < a.len() && is_whitespace(a[i])
        invariant
            a@ == s@,
            i <= a.len(),
            trim_start(s@) == trim_start(s@.subrange(i as int, s@.len() as int)),
        decreases a.len() - i,
    {
        assert(s@.subrange(i as int, s@.len() as int).subrange(
            1,
            s@.len() - i,
        ) =~= s@.subrange(i + 1, s@.len() as int));
        i = i + 1;
    }
    let ghost rest = s@.subrange(i as int, s@.len() as int);
    let mut j: usize = i;
    while j < a.len() && !is_whitespace(a[j])
        invariant
            a@ == s@,
            i <= j <= a.len(),
            rest == s@.subrange(i as int, s@.len() as int),
            forall|k: int| 0 <= k < j - i ==> !white(#[trigger] rest[k]),
        decreases a.len() - j,
    {
        assert(rest[j - i] == a@[j as int]);
        j = j + 1;
    }
    proof {
        until_white_is(rest, j - i);
        assert(rest.subrange(0, j - i) =~= s@.subrange(i as int, j as int));
    }
    text_of(&a, i, j)
}

/// The characters of each text of a list of borrowed texts.
pub open spec fn str_views(list: Seq<&str>) -> Seq<Seq<char>> {
    Seq::new(list.len(), |i: int| list[i]@)
}

/// Owned copies of the texts of a list.
pub fn texts(list: &[&str]) -> (r: Vec<String>)
    ensures
        views(r@) == str_views(list@),
{
    let mut out: Vec<String> = Vec::new();
    let mut i: usize = 0;
    while i < list.len()
        invariant
            i <= list.len(),
            views(out@) == str_views(list@).take(i as int),
        decreases list.len() - i,
    {
        let s = list[i].to_owned();
        let ghost before = out@;
        out.push(s);
        assert(views(out@) =~= views(before).push(s@));
        assert(str_views(list@).take(i + 1) =~= str_views(list@).take(i as int).push(
            str_views(list@)[i as int],
        ));
        i = i + 1;
    }
    assert(str_views(list@).take(list@.len() as int) =~= str_views(list@));
    out
}

/// The first position at which a text stands in another.
pub open spec fn first_text_at(s: Seq<char>, p: Seq<char>, i: int) -> bool {
    stands_at(s, p, i) && forall|k: int| 0 <= k < i ==> !stands_at(s, p, k)
}

/// What stands before and behind the first occurrence of a text.
pub fn split_once_text(s: &str, p: &str) -> (r: Option<(String, String)>)
    ensures
        r is Some <==> has_text(s@, p@),
        r matches Some(parts) ==> {
            &&& first_text_at(s@, p@, parts.0@.len() as int)
            &&& s@ == parts.0@ + p@ + parts.1@
        },
{
    let a = chars_of(s);
    let b = chars_of(p);
    if b.len() > a.len() {
        return None;
    }
    let last: usize = a.len() - b.len();
    let mut i: usize = 0;
    while i <= last && !matches_at(&a, &b, i)
        invariant
            a@ == s@,
            b@ == p@,
            last == a.len() - b.len(),
            i <= last + 1,
            forall|k: int| 0 <= k < i ==> !stands_at(s@, p@, k),
        ensures
            i <= last + 1,
            forall|k: int| 0 <= k < i ==> !stands_at(s@, p@, k),
            i <= last ==> stands_at(s@, p@, i as int),
        decreases last + 1 - i,
    {
        if i == last {
            return None;
        }
        i = i + 1;
    }
    if i > last {
        return None;
    }
    let head = text_of(&a, 0, i);
    let tail = text_of(&a, i + b.len(), a.len());
    assert(s@ =~= head@ + p@ + tail@);
    Some((head, tail))
}

/// The first line of a text, without what ends it.
pub open spec fn first_line(s: Seq<char>) -> Seq<char> {
    let k = first_at(s, '\n');
    if k < s.len() {
        let line = s.subrange(0, k);
        if line.len() > 0 && line.last() == '\r' {
            line.drop_last()
        } else {
            line
        }
    } else {
        s
    }
}

pub fn take_first_line(s: &str) -> (r: String)
    ensures
        r@ == first_line(s@),
{
    let a = chars_of(s);
    let k: usize = find_char(&a, '\n');
    if k < a.len() {
        if k > 0 && a[k - 1] == '\r' {
            assert(s@.subrange(0, k as int).drop_last() =~= s@.subrange(0, k - 1));
            text_of(&a, 0, k - 1)
        } else {
            text_of(&a, 0, k)
        }
    } else {
        assert(s@.subrange(0, s@.len() as int) =~= s@);
        text_of(&a, 0, a.len())
    }
}

/// The second of the words that white space separates; empty where there is none.
pub open spec fn second_word(s: Seq<char>) -> Seq<char> {
    let t = trim_start(s);
    first_word(t.subrange(until_white(t).len() as int, t.len() as int))
}

pub fn take_second_word(s: &str) -> (r: String)
    ensures
        r@ == second_word(s@),
{
    let a = chars_of(s);
    let mut i: usize = 0;
    assert(s@.subrange(0, s@.len() as int) =~= s@);
    while i < a.len() && is_whitespace(a[i])
        invariant
            a@ == s@,
            i <= a.len(),
            trim_start(s@) == trim_start(s@.subrange(i as int, s@.len() as int)),
        decreases a.len() - i,
    {
        assert(s@.subrange(i as int, s@.len() as int).subrange(
            1,
            s@.len() - i,
        ) =~= s@.subrange(i + 1, s@.len() as int));
        i = i + 1;
    }
    let ghost rest = s@.subrange(i as int, s@.len() as int);
    let mut j: usize = i;
    while j < a.len() && !is_whitespace(a[j])
        invariant
            a@ == s@,
            i <= j <= a.len(),
            rest == s@.subrange(i as int, s@.len() as int),
            forall|k: int| 0 <= k < j - i ==> !white(#[trigger] rest[k]),
        decreases a.len() - j,
    {
        assert(rest[j - i] == a@[j as int]);
        j = j + 1;
    }
    proof {
        until_white_is(rest, j - i);
        assert(rest.subrange(j - i, rest.len() as int) =~= s@.subrange(j as int, s@.len() as int));
    }
    let tail = text_of(&a, j, a.len());
    take_first_word(tail.as_str())
}

/// The first piece of a text is what stands before the first mark in it, and a text without one is
/// in one piece.
pub proof fn first_pieces_end_at_the_mark(a: Seq<char>, c: char, b: Seq<char>)
    requires
        !a.contains(c),
    ensures
        pieces(a, c) == seq![a],
        pieces(a + seq![c] + b, c).len() >= 2,
        pieces(a + seq![c] + b, c)[0] == a,
    decreases a.len() + b.len(),
{
    if b.len() > 0 {
        let init = b.drop_last();
        first_pieces_end_at_the_mark(a, c, init);
        assert((a + seq![c] + b).drop_last() =~= a + seq![c] + init);
    } else {
        if a.len() > 0 {
            let init = a.drop_last();
            assert(!init.contains(c)) by {
                assert forall|i: int| 0 <= i < init.len() implies init[i] != c by {
                    assert(a.contains(a[i]));
                }
            }
            first_pieces_end_at_the_mark(init, c, b);
            assert(a.contains(a.last()));
            assert(init.push(a.last()) =~= a);
            assert(pieces(a, c) =~= seq![a]);
        } else {
            assert(a =~= Seq::<char>::empty());
        }
        assert((a + seq![c] + b).drop_last() =~= a);
    }
}

/// A text is cut at the first mark in it, and at none where there is none.
pub proof fn texts_are_cut_at_the_first_mark(a: Seq<char>, c: char, b: Seq<char>)
    requires
        !a.contains(c),
    ensures
        cut_once(a + seq![c] + b, c) == Some((a, b)),
        cut_once(a, c) is None,
{
    first_mark(a, c, seq![c] + b);
    first_mark(a, c, Seq::<char>::empty());
    let whole = a + seq![c] + b;
    assert(a + (seq![c] + b) =~= whole);
    assert(a + Seq::<char>::empty() =~= a);
    assert(whole.subrange(0, a.len() as int) =~= a);
    assert(whole.subrange((a.len() + 1) as int, whole.len() as int) =~= b);
}

proof fn first_mark(a: Seq<char>, c: char, rest: Seq<char>)
    requires
        !a.contains(c),
        rest.len() > 0 ==> rest[0] == c,
    ensures
        first_at(a + rest, c) == a.len(),
    decreases a.len(),
{
    if a.len() > 0 {
        let less = a.subrange(1, a.len() as int);
        assert(a.contains(a[0]));
        assert(!less.contains(c)) by {
            assert forall|i: int| 0 <= i < less.len() implies less[i] != c by {
                assert(a.contains(a[i + 1]));
            }
        }
        first_mark(less, c, rest);
        assert((a + rest).subrange(1, (a + rest).len() as int) =~= less + rest);
    } else {
        assert(a + rest =~= rest);
    }
}

} // verus!
