//! Character-sequence operations on names, versions and paths.
//!
//! Every text the library inspects is modelled as a `Seq<char>`; the
//! executable functions work on `Vec<char>` and are specified against the
//! spec functions of the same meaning.

use vstd::prelude::*;

verus! {

/// `needle` occurs in `s` starting at index `at`.
pub open spec fn occurs_at(s: Seq<char>, needle: Seq<char>, at: int) -> bool {
    &&& 0 <= at
    &&& at + needle.len() <= s.len()
    &&& s.subrange(at, at + needle.len()) == needle
}

/// `s` begins with `prefix`.
pub open spec fn starts_with(s: Seq<char>, prefix: Seq<char>) -> bool {
    occurs_at(s, prefix, 0)
}

/// `s` ends with `suffix`.
pub open spec fn ends_with(s: Seq<char>, suffix: Seq<char>) -> bool {
    occurs_at(s, suffix, s.len() - suffix.len())
}

/// `needle` occurs somewhere in `s`.
pub open spec fn contains(s: Seq<char>, needle: Seq<char>) -> bool {
    exists|at: int| #[trigger] occurs_at(s, needle, at)
}

/// The text of an optional string.
pub open spec fn text_of(s: Option<String>) -> Option<Seq<char>> {
    match s {
        Some(t) => Some(t@),
        None => None,
    }
}

/// The texts that the strings of `strings` hold.
pub open spec fn texts(strings: Seq<String>) -> Seq<Seq<char>> {
    Seq::new(strings.len(), |i: int| strings[i]@)
}

/// The characters of `s`, in order.
pub fn chars_of(s: &str) -> (out: Vec<char>)
    ensures
        out@ == s@,
{
    let mut out: Vec<char> = Vec::new();
    for c in it: s.chars()
        invariant
            out@ == it.seq().take(it.index() as int),
            it.seq() == s@,
    {
        out.push(c);
    }
    out
}

/// Whether `needle` occurs in `hay` at index `at`.
pub fn matches_at(hay: &Vec<char>, needle: &Vec<char>, at: usize) -> (found: bool)
    ensures
        found == occurs_at(hay@, needle@, at as int),
{
    if needle.len() > hay.len() || at > hay.len() - needle.len() {
        return false;
    }
    let mut k: usize = 0;
    while k < needle.len()
        invariant
            k <= needle.len(),
            at + needle.len() <= hay.len(),
            forall|j: int| 0 <= j < k ==> hay@[at + j] == needle@[j],
        decreases needle.len() - k,
    {
        if hay[at + k] != needle[k] {
            return false;
        }
        k += 1;
    }
    assert(hay@.subrange(at as int, at + needle.len()) =~= needle@);
    true
}

/// Whether `c` occurs in `hay`.
pub fn has_char(hay: &Vec<char>, c: char) -> (found: bool)
    ensures
        found == hay@.contains(c),
{
    let mut i: usize = 0;
    while i < hay.len()
        invariant
            i <= hay.len(),
            forall|j: int| 0 <= j < i ==> hay@[j] != c,
        decreases hay.len() - i,
    {
        if hay[i] == c {
            return true;
        }
        i += 1;
    }
    false
}

/// Whether `hay` begins with `needle`.
pub fn has_prefix(hay: &Vec<char>, needle: &Vec<char>) -> (found: bool)
    ensures
        found == starts_with(hay@, needle@),
{
    matches_at(hay, needle, 0)
}

/// Whether `hay` ends with `needle`.
pub fn has_suffix(hay: &Vec<char>, needle: &Vec<char>) -> (found: bool)
    ensures
        found == ends_with(hay@, needle@),
{
    if needle.len() > hay.len() {
        return false;
    }
    matches_at(hay, needle, hay.len() - needle.len())
}

/// Whether `needle` occurs anywhere in `hay`.
pub fn has_infix(hay: &Vec<char>, needle: &Vec<char>) -> (found: bool)
    ensures
        found == contains(hay@, needle@),
{
    if needle.len() > hay.len() {
        return false;
    }
    let last: usize = hay.len() - needle.len();
    let mut at: usize = 0;
    loop
        invariant
            at <= last,
            last == hay.len() - needle.len(),
            forall|j: int| 0 <= j < at ==> !occurs_at(hay@, needle@, j),
        decreases last - at,
    {
        if matches_at(hay, needle, at) {
            return true;
        }
        if at == last {
            return false;
        }
        at += 1;
    }
}

/// What `str::to_lowercase` yields for a text: its Unicode lower-case form.
pub uninterp spec fn lowercase_of(s: Seq<char>) -> Seq<char>;

/// `str::to_lowercase`: the result is the lower-case form of the argument,
/// which this library only names.
#[verifier::external_body]
pub(crate) fn to_lowercase(s: &str) -> (lower: String)
    ensures
        lower@ == lowercase_of(s@),
{
    s.to_lowercase()
}

/// Whether `char::is_whitespace` holds of a character: the Unicode property
/// `White_Space`.
pub uninterp spec fn is_whitespace(c: char) -> bool;

/// `char::is_whitespace`: the result is the named property of the argument.
#[verifier::external_body]
pub(crate) fn char_is_whitespace(c: char) -> (white: bool)
    ensures
        white == is_whitespace(c),
{
    c.is_whitespace()
}

/// `String::push` appends the given character to the end of the string.
pub assume_specification[ String::push ](s: &mut String, c: char)
    ensures
        final(s)@ == old(s)@.push(c),
;

/// The text made of `chars`, in order.
pub fn string_of(chars: &Vec<char>) -> (out: String)
    ensures
        out@ == chars@,
{
    let mut out = String::new();
    let mut i: usize = 0;
    while i < chars.len()
        invariant
            i <= chars.len(),
            out@ == chars@.take(i as int),
        decreases chars.len() - i,
    {
        out.push(chars[i]);
        i += 1;
    }
    out
}

/// Whether two texts hold the same characters.
pub fn same_text(a: &str, b: &str) -> (same: bool)
    ensures
        same == (a@ == b@),
{
    let x = chars_of(a);
    let y = chars_of(b);
    if x.len() != y.len() {
        return false;
    }
    let same = matches_at(&x, &y, 0);
    assert(x@.subrange(0, x@.len() as int) == x@);
    same
}

/// A class of characters that trimming removes from an end of a text.
#[derive(Clone, Copy, Debug)]
pub enum CharClass {
    /// The one given character.
    Exactly(char),
    /// Every character but the given one.
    Except(char),
    /// Every white-space character.
    Whitespace,
}

impl CharClass {
    /// `c` belongs to the class.
    pub open spec fn holds(self, c: char) -> bool {
        match self {
            CharClass::Exactly(x) => c == x,
            CharClass::Except(x) => c != x,
            CharClass::Whitespace => is_whitespace(c),
        }
    }

    /// Whether `c` belongs to the class.
    pub fn test(&self, c: char) -> (inside: bool)
        ensures
            inside == self.holds(c),
    {
        match self {
            CharClass::Exactly(x) => c == *x,
            CharClass::Except(x) => c != *x,
            CharClass::Whitespace => char_is_whitespace(c),
        }
    }
}

/// `n` is the length of the longest run of characters of `class` at the start
/// of `s`.
pub open spec fn is_leading_run(s: Seq<char>, class: CharClass, n: int) -> bool {
    &&& 0 <= n <= s.len()
    &&& forall|i: int| 0 <= i < n ==> class.holds(#[trigger] s[i])
    &&& n < s.len() ==> !class.holds(s[n])
}

/// `n` is the length of the longest run of characters of `class` at the end
/// of `s`.
pub open spec fn is_trailing_run(s: Seq<char>, class: CharClass, n: int) -> bool {
    &&& 0 <= n <= s.len()
    &&& forall|i: int| s.len() - n <= i < s.len() ==> class.holds(#[trigger] s[i])
    &&& n < s.len() ==> !class.holds(s[s.len() - n - 1])
}

/// The length of the longest run of characters of `class` at the start of `s`.
pub open spec fn leading_run(s: Seq<char>, class: CharClass) -> int {
    choose|n: int| is_leading_run(s, class, n)
}

/// The length of the longest run of characters of `class` at the end of `s`.
pub open spec fn trailing_run(s: Seq<char>, class: CharClass) -> int {
    choose|n: int| is_trailing_run(s, class, n)
}

/// `s` without the characters of `class` at its start.
pub open spec fn trim_start(s: Seq<char>, class: CharClass) -> Seq<char> {
    s.skip(leading_run(s, class))
}

/// `s` without the characters of `class` at its end.
pub open spec fn trim_end(s: Seq<char>, class: CharClass) -> Seq<char> {
    s.take(s.len() - trailing_run(s, class))
}

/// `s` without white space at either end.
pub open spec fn trim(s: Seq<char>) -> Seq<char> {
    trim_end(trim_start(s, CharClass::Whitespace), CharClass::Whitespace)
}

/// Every text has a leading run of each class, so that `leading_run` and
/// `trim_start` say of every text what they are meant to say.
pub proof fn lemma_leading_run_exists(s: Seq<char>, class: CharClass)
    ensures
        is_leading_run(s, class, leading_run(s, class)),
    decreases s.len(),
{
    if s.len() == 0 || !class.holds(s[0]) {
        assert(is_leading_run(s, class, 0));
    } else {
        let rest = s.skip(1);
        lemma_leading_run_exists(rest, class);
        let n = leading_run(rest, class);
        assert(is_leading_run(s, class, n + 1)) by {
            assert forall|i: int| 0 <= i < n + 1 implies class.holds(#[trigger] s[i]) by {
                if i > 0 {
                    assert(s[i] == rest[i - 1]);
                }
            }
        }
    }
}

/// There is exactly one leading run, so `leading_run` is the number that
/// satisfies `is_leading_run`.
pub proof fn lemma_leading_run_unique(s: Seq<char>, class: CharClass, n: int)
    requires
        is_leading_run(s, class, n),
    ensures
        leading_run(s, class) == n,
{
}

/// There is exactly one trailing run, so `trailing_run` is the number that
/// satisfies `is_trailing_run`.
pub proof fn lemma_trailing_run_unique(s: Seq<char>, class: CharClass, n: int)
    requires
        is_trailing_run(s, class, n),
    ensures
        trailing_run(s, class) == n,
{
}

/// The characters of `v` from index `from` up to, not including, `to`.
pub fn slice_of(v: &Vec<char>, from: usize, to: usize) -> (out: Vec<char>)
    requires
        from <= to <= v.len(),
    ensures
        out@ == v@.subrange(from as int, to as int),
{
    let mut out: Vec<char> = Vec::new();
    let mut i: usize = from;
    while i < to
        invariant
            from <= i <= to <= v.len(),
            out@ == v@.subrange(from as int, i as int),
        decreases to - i,
    {
        out.push(v[i]);
        i += 1;
    }
    out
}

/// `v` without the characters of `class` at its start.
pub fn trimmed_start(v: &Vec<char>, class: CharClass) -> (out: Vec<char>)
    ensures
        out@ == trim_start(v@, class),
{
    let mut n: usize = 0;
    while n < v.len() && class.test(v[n])
        invariant
            n <= v.len(),
            forall|i: int| 0 <= i < n ==> class.holds(#[trigger] v@[i]),
        decreases v.len() - n,
    {
        n += 1;
    }
    proof {
        lemma_leading_run_unique(v@, class, n as int);
    }
    slice_of(v, n, v.len())
}

/// `v` without the characters of `class` at its end.
pub fn trimmed_end(v: &Vec<char>, class: CharClass) -> (out: Vec<char>)
    ensures
        out@ == trim_end(v@, class),
{
    let mut end: usize = v.len();
    while end > 0 && class.test(v[end - 1])
        invariant
            end <= v.len(),
            forall|i: int| end <= i < v.len() ==> class.holds(#[trigger] v@[i]),
        decreases end,
    {
        end -= 1;
    }
    proof {
        lemma_trailing_run_unique(v@, class, v.len() - end);
    }
    slice_of(v, 0, end)
}

/// `v` without white space at either end.
pub fn trimmed(v: &Vec<char>) -> (out: Vec<char>)
    ensures
        out@ == trim(v@),
{
    let front = trimmed_start(v, CharClass::Whitespace);
    trimmed_end(&front, CharClass::Whitespace)
}

/// `s` with `prefix` removed from its start as often as it stands there.
/// An empty `prefix` removes nothing.
pub open spec fn strip_prefixes(s: Seq<char>, prefix: Seq<char>) -> Seq<char>
    decreases s.len(),
{
    if prefix.len() > 0 && starts_with(s, prefix) {
        strip_prefixes(s.skip(prefix.len() as int), prefix)
    } else {
        s
    }
}

/// `s` with `suffix` removed from its end as often as it stands there.
/// An empty `suffix` removes nothing.
pub open spec fn strip_suffixes(s: Seq<char>, suffix: Seq<char>) -> Seq<char>
    decreases s.len(),
{
    if suffix.len() > 0 && ends_with(s, suffix) {
        strip_suffixes(s.take(s.len() - suffix.len()), suffix)
    } else {
        s
    }
}

/// An occurrence at the start of what follows index `from` is an occurrence
/// at `from`.
pub proof fn lemma_starts_with_skip(s: Seq<char>, needle: Seq<char>, from: int)
    requires
        0 <= from <= s.len(),
    ensures
        starts_with(s.skip(from), needle) == occurs_at(s, needle, from),
{
    if from + needle.len() <= s.len() {
        assert(s.skip(from).subrange(0, needle.len() as int) == s.subrange(
            from,
            from + needle.len(),
        ));
    }
}

/// An occurrence at the end of what precedes index `to` is an occurrence
/// that ends at `to`.
pub proof fn lemma_ends_with_take(s: Seq<char>, needle: Seq<char>, to: int)
    requires
        0 <= to <= s.len(),
    ensures
        ends_with(s.take(to), needle) == occurs_at(s, needle, to - needle.len()),
{
    if needle.len() <= to {
        assert(s.take(to).subrange(to - needle.len(), to) == s.subrange(to - needle.len(), to));
    }
}

/// `s` without `suffix` at its end, which is removed once where `s` ends
/// with it.
pub open spec fn strip_suffix(s: Seq<char>, suffix: Seq<char>) -> Seq<char> {
    if ends_with(s, suffix) {
        s.take(s.len() - suffix.len())
    } else {
        s
    }
}

/// `v` without `suffix` at its end, which is removed once where `v` ends
/// with it.
pub fn without_suffix(v: &Vec<char>, suffix: &Vec<char>) -> (out: Vec<char>)
    ensures
        out@ == strip_suffix(v@, suffix@),
{
    if has_suffix(v, suffix) {
        slice_of(v, 0, v.len() - suffix.len())
    } else {
        slice_of(v, 0, v.len())
    }
}

/// `v` with `prefix` removed from its start as often as it stands there.
pub fn without_prefixes(v: &Vec<char>, prefix: &Vec<char>) -> (out: Vec<char>)
    ensures
        out@ == strip_prefixes(v@, prefix@),
{
    let n = prefix.len();
    let mut from: usize = 0;
    assert(v@.skip(0) == v@);
    if n > 0 {
        while matches_at(v, prefix, from)
            invariant
                n == prefix.len(),
                n > 0,
                from <= v.len(),
                strip_prefixes(v@, prefix@) == strip_prefixes(v@.skip(from as int), prefix@),
            decreases v.len() - from,
        {
            proof {
                lemma_starts_with_skip(v@, prefix@, from as int);
                assert(v@.skip(from as int).skip(n as int) == v@.skip(from + n));
            }
            from += n;
        }
        proof {
            lemma_starts_with_skip(v@, prefix@, from as int);
        }
    }
    slice_of(v, from, v.len())
}

/// `v` with `suffix` removed from its end as often as it stands there.
pub fn without_suffixes(v: &Vec<char>, suffix: &Vec<char>) -> (out: Vec<char>)
    ensures
        out@ == strip_suffixes(v@, suffix@),
{
    let n = suffix.len();
    let mut to: usize = v.len();
    assert(v@.take(v.len() as int) == v@);
    if n > 0 {
        while to >= n && matches_at(v, suffix, to - n)
            invariant
                n == suffix.len(),
                n > 0,
                to <= v.len(),
                strip_suffixes(v@, suffix@) == strip_suffixes(v@.take(to as int), suffix@),
            decreases to,
        {
            proof {
                lemma_ends_with_take(v@, suffix@, to as int);
                assert(v@.take(to as int).take(to - n) == v@.take(to - n));
            }
            to -= n;
        }
        proof {
            lemma_ends_with_take(v@, suffix@, to as int);
        }
    }
    slice_of(v, 0, to)
}

/// `s` with every `from` replaced by `to`.
pub open spec fn replace_char(s: Seq<char>, from: char, to: char) -> Seq<char> {
    Seq::new(s.len(), |i: int| if s[i] == from { to } else { s[i] })
}

/// `v` with every `from` replaced by `to`.
pub fn with_char_replaced(v: &Vec<char>, from: char, to: char) -> (out: Vec<char>)
    ensures
        out@ == replace_char(v@, from, to),
{
    let mut out: Vec<char> = Vec::new();
    let mut i: usize = 0;
    while i < v.len()
        invariant
            i <= v.len(),
            out@.len() == i,
            forall|j: int| 0 <= j < i ==> out@[j] == replace_char(v@, from, to)[j],
        decreases v.len() - i,
    {
        let c = v[i];
        out.push(if c == from { to } else { c });
        i += 1;
    }
    out
}

/// `a` followed by `b`.
pub fn joined(a: &Vec<char>, b: &Vec<char>) -> (out: Vec<char>)
    ensures
        out@ == a@ + b@,
{
    let mut out = slice_of(a, 0, a.len());
    let mut i: usize = 0;
    while i < b.len()
        invariant
            i <= b.len(),
            out@ == a@ + b@.take(i as int),
        decreases b.len() - i,
    {
        out.push(b[i]);
        i += 1;
    }
    out
}

/// The pieces of `s` between occurrences of `sep`, in order. A text without
/// `sep` is its own single piece; pieces may be empty.
pub open spec fn split(s: Seq<char>, sep: char) -> Seq<Seq<char>>
    decreases s.len(),
{
    let n = leading_run(s, CharClass::Except(sep));
    if 0 <= n < s.len() {
        seq![s.take(n)] + split(s.skip(n + 1), sep)
    } else {
        seq![s]
    }
}

/// The texts that the vectors of `parts` hold.
pub open spec fn texts_of(parts: Seq<Vec<char>>) -> Seq<Seq<char>> {
    Seq::new(parts.len(), |i: int| parts[i]@)
}

/// The pieces of `v` between occurrences of `sep`, in order.
pub fn split_at_char(v: &Vec<char>, sep: char) -> (parts: Vec<Vec<char>>)
    ensures
        texts_of(parts@) == split(v@, sep),
        parts@.len() >= 1,
{
    let mut parts: Vec<Vec<char>> = Vec::new();
    let mut start: usize = 0;
    let mut i: usize = 0;
    assert(v@.skip(0) == v@);
    while i < v.len()
        invariant
            start <= i <= v.len(),
            forall|j: int| start <= j < i ==> v@[j] != sep,
            split(v@, sep) == texts_of(parts@) + split(v@.skip(start as int), sep),
        decreases v.len() - i,
    {
        if v[i] == sep {
            let piece = slice_of(v, start, i);
            proof {
                let rest = v@.skip(start as int);
                lemma_leading_run_unique(rest, CharClass::Except(sep), i - start);
                assert(rest.take(i - start) == piece@);
                assert(rest.skip(i - start + 1) == v@.skip(i + 1));
            }
            parts.push(piece);
            start = i + 1;
        }
        i += 1;
    }
    let piece = slice_of(v, start, v.len());
    proof {
        let rest = v@.skip(start as int);
        lemma_leading_run_unique(rest, CharClass::Except(sep), rest.len() as int);
    }
    parts.push(piece);
    parts
}

/// `a` and `b` agree on their first `k` characters.
pub open spec fn agree_until(a: Seq<char>, b: Seq<char>, k: int) -> bool {
    &&& 0 <= k <= a.len()
    &&& k <= b.len()
    &&& forall|i: int| 0 <= i < k ==> a[i] == b[i]
}

/// `a` comes after `b` in the order of `String`: at the first place where
/// the two differ `a` holds the greater code point, or `b` ends there and
/// `a` goes on.
pub open spec fn lex_greater(a: Seq<char>, b: Seq<char>) -> bool {
    exists|k: int|
        #[trigger] agree_until(a, b, k) && k < a.len() && (k == b.len() || a[k] as u32
            > b[k] as u32)
}

/// The order of strings is strict: no text comes after itself, and of two
/// texts at most one comes after the other.
pub proof fn lemma_lex_greater_is_strict(a: Seq<char>, b: Seq<char>)
    ensures
        !lex_greater(a, a),
        lex_greater(a, b) ==> !lex_greater(b, a),
{
}

/// Whether `a` comes after `b` in the order of `String`.
pub fn is_lex_greater(a: &Vec<char>, b: &Vec<char>) -> (greater: bool)
    ensures
        greater == lex_greater(a@, b@),
{
    let mut k: usize = 0;
    while k < a.len() && k < b.len() && a[k] == b[k]
        invariant
            agree_until(a@, b@, k as int),
        decreases a.len() - k,
    {
        k += 1;
    }
    let greater = k < a.len() && (k == b.len() || a[k] as u32 > b[k] as u32);
    greater
}

} // verus!
