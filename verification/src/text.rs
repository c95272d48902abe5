//! Text operations, specified on the sequence of characters that a string holds.
use vstd::prelude::*;

verus! {

/// Whether `c` has the Unicode property `White_Space`.
pub open spec fn is_white_space(c: char) -> bool {
    ||| '\u{9}' <= c <= '\u{d}'
    ||| c == ' '
    ||| c == '\u{85}'
    ||| c == '\u{a0}'
    ||| c == '\u{1680}'
    ||| '\u{2000}' <= c <= '\u{200a}'
    ||| c == '\u{2028}'
    ||| c == '\u{2029}'
    ||| c == '\u{202f}'
    ||| c == '\u{205f}'
    ||| c == '\u{3000}'
}

/// Whether `s` holds nothing but white space (the empty text included).
pub open spec fn is_blank_text(s: Seq<char>) -> bool {
    forall|i: int| 0 <= i < s.len() ==> is_white_space(#[trigger] s[i])
}

/// `s` with every occurrence of `pattern` replaced by `with`: occurrences are taken from the
/// left and do not overlap, and what replaced one is not searched again.
pub open spec fn replaced(s: Seq<char>, pattern: Seq<char>, with: Seq<char>) -> Seq<char>
    decreases s.len(),
{
    if pattern.len() == 0 || s.len() == 0 {
        s
    } else if pattern.is_prefix_of(s) {
        with + replaced(s.skip(pattern.len() as int), pattern, with)
    } else {
        seq![s[0]] + replaced(s.skip(1), pattern, with)
    }
}

/// The parts one after another, with `sep` between each two neighbours.
pub open spec fn joined(parts: Seq<Seq<char>>, sep: Seq<char>) -> Seq<char>
    decreases parts.len(),
{
    if parts.len() == 0 {
        Seq::empty()
    } else if parts.len() == 1 {
        parts[0]
    } else {
        joined(parts.drop_last(), sep) + sep + parts.last()
    }
}

/// `s` without the run of `c` at its end.
pub open spec fn trimmed_end(s: Seq<char>, c: char) -> Seq<char>
    decreases s.len(),
{
    if s.len() > 0 && s.last() == c {
        trimmed_end(s.drop_last(), c)
    } else {
        s
    }
}

/// The ten decimal digits in their order.
pub open spec fn digits() -> Seq<char> {
    "0123456789"@
}

/// The decimal notation of `n`, without leading zeros.
pub open spec fn decimal_text(n: nat) -> Seq<char>
    decreases n,
{
    if n < 10 {
        seq![digits()[n as int]]
    } else {
        decimal_text(n / 10).push(digits()[(n % 10) as int])
    }
}

/// The characters of `s`.
pub fn chars_of(s: &str) -> (chars: Vec<char>)
    ensures
        chars@ == s@,
{
    let mut chars: Vec<char> = Vec::new();
    for c in it: s.chars()
        invariant
            it.seq() == s@,
            chars@ == s@.take(it.index() as int),
    {
        chars.push(c);
    }
    chars
}

/// Whether `needle` stands in `hay` at position `at`.
fn occurs_at(hay: &Vec<char>, at: usize, needle: &Vec<char>) -> (found: bool)
    requires
        at <= hay@.len(),
    ensures
        found == needle@.is_prefix_of(hay@.skip(at as int)),
{
    if hay.len() - at < needle.len() {
        return false;
    }
    let mut k: usize = 0;
    while k < needle.len()
        invariant
            k <= needle@.len(),
            at + needle.len() <= hay.len(),
            forall|j: int| 0 <= j < k ==> needle@[j] == hay@.skip(at as int)[j],
        decreases needle@.len() - k,
    {
        if hay[at + k] != needle[k] {
            assert(hay@.skip(at as int)[k as int] != needle@[k as int]);
            return false;
        }
        k += 1;
    }
    assert(needle@ =~= hay@.skip(at as int).subrange(0, needle@.len() as int));
    true
}

/// Whether `s` starts with `prefix`.
pub fn starts_with(s: &str, prefix: &str) -> (found: bool)
    ensures
        found == prefix@.is_prefix_of(s@),
{
    assert(s@.skip(0) =~= s@);
    occurs_at(&chars_of(s), 0, &chars_of(prefix))
}

/// Whether `a` and `b` hold the same characters.
pub fn same_text(a: &str, b: &str) -> (same: bool)
    ensures
        same == (a@ == b@),
{
    let x = chars_of(a);
    let y = chars_of(b);
    assert(x@.skip(0) =~= x@);
    if x.len() != y.len() {
        return false;
    }
    let found = occurs_at(&x, 0, &y);
    assert(x@.subrange(0, x@.len() as int) =~= x@);
    found
}

/// Whether `s` is empty or all white space.
pub fn is_blank(s: &str) -> (blank: bool)
    ensures
        blank == is_blank_text(s@),
{
    let chars = chars_of(s);
    let mut k: usize = 0;
    while k < chars.len()
        invariant
            chars@ == s@,
            k <= chars@.len(),
            forall|j: int| 0 <= j < k ==> is_white_space(#[trigger] chars@[j]),
        decreases chars@.len() - k,
    {
        let c: char = chars[k];
        let white = ('\u{9}' <= c && c <= '\u{d}') || c == ' ' || c == '\u{85}' || c == '\u{a0}'
            || c == '\u{1680}' || ('\u{2000}' <= c && c <= '\u{200a}') || c == '\u{2028}' || c
            == '\u{2029}' || c == '\u{202f}' || c == '\u{205f}' || c == '\u{3000}';
        if !white {
            assert(!is_white_space(chars@[k as int]));
            return false;
        }
        k += 1;
    }
    true
}

/// `s` with every occurrence of `pattern` replaced by `with`.
pub fn replace_all(s: &str, pattern: &str, with: &str) -> (out: String)
    requires
        pattern@.len() > 0,
    ensures
        out@ == replaced(s@, pattern@, with@),
{
    let hay = chars_of(s);
    let needle = chars_of(pattern);
    let mut out = String::new();
    let mut kept: usize = 0;
    let mut at: usize = 0;
    assert(s@.skip(0) =~= s@);
    while at < hay.len()
        invariant
            hay@ == s@,
            needle@ == pattern@,
            pattern@.len() > 0,
            kept <= at <= hay@.len(),
            replaced(s@, pattern@, with@) =~= out@ + s@.subrange(kept as int, at as int) + replaced(
                s@.skip(at as int),
                pattern@,
                with@,
            ),
        decreases hay@.len() - at,
    {
        let ghost rest = s@.skip(at as int);
        if occurs_at(&hay, at, &needle) {
            out.append(s.substring_char(kept, at));
            out.append(with);
            assert(rest.skip(pattern@.len() as int) =~= s@.skip(at + pattern@.len()));
            at += needle.len();
            kept = at;
        } else {
            assert(rest.skip(1) =~= s@.skip(at + 1));
            assert(s@.subrange(kept as int, at + 1) =~= s@.subrange(kept as int, at as int) + seq![
                rest[0],
            ]);
            at += 1;
        }
    }
    out.append(s.substring_char(kept, at));
    out
}

/// The parts one after another, with `sep` between each two neighbours.
pub fn join(parts: &Vec<String>, sep: &str) -> (out: String)
    ensures
        out@ == joined(parts.deep_view(), sep@),
{
    let mut out = String::new();
    let mut k: usize = 0;
    let ghost all = parts.deep_view();
    while k < parts.len()
        invariant
            all == parts.deep_view(),
            k <= parts@.len(),
            out@ =~= joined(all.take(k as int), sep@),
        decreases parts@.len() - k,
    {
        assert(all.take(k + 1).drop_last() =~= all.take(k as int));
        assert(all.take(k + 1).last() == parts@[k as int]@);
        if k > 0 {
            out.append(sep);
        }
        out.append(parts[k].as_str());
        k += 1;
    }
    assert(all.take(k as int) =~= all);
    out
}

/// `s` without the run of `c` at its end.
pub fn trim_end_of(s: &str, c: char) -> (kept: &str)
    ensures
        kept@ == trimmed_end(s@, c),
{
    let chars = chars_of(s);
    let mut n: usize = chars.len();
    assert(s@.take(n as int) =~= s@);
    while n > 0 && chars[n - 1] == c
        invariant
            chars@ == s@,
            n <= chars@.len(),
            trimmed_end(s@, c) == trimmed_end(s@.take(n as int), c),
        decreases n,
    {
        assert(s@.take(n as int).drop_last() =~= s@.take(n - 1));
        n -= 1;
    }
    assert(s@.subrange(0, n as int) =~= s@.take(n as int));
    s.substring_char(0, n)
}

/// The decimal notation of `n`.
pub fn decimal(n: u64) -> (out: String)
    ensures
        out@ == decimal_text(n as nat),
    decreases n,
{
    proof {
        reveal_strlit("0123456789");
    }
    let last: usize = (n % 10) as usize;
    let digit = "0123456789".substring_char(last, last + 1);
    assert(digit@ =~= seq![digits()[last as int]]);
    if n < 10 {
        digit.to_owned()
    } else {
        let mut out = decimal(n / 10);
        out.append(digit);
        assert(out@ =~= decimal_text((n / 10) as nat).push(digits()[last as int]));
        out
    }
}

/// A copy of an optional text.
pub fn copy_option(text: &Option<String>) -> (copy: Option<String>)
    ensures
        copy.deep_view() == text.deep_view(),
{
    match text {
        Some(t) => Some(t.clone()),
        None => None,
    }
}

/// A copy of a list of texts.
pub fn copy_list(texts: &Vec<String>) -> (copy: Vec<String>)
    ensures
        copy.deep_view() == texts.deep_view(),
{
    let mut copy: Vec<String> = Vec::new();
    let mut k: usize = 0;
    while k < texts.len()
        invariant
            k <= texts@.len(),
            copy@.len() == k,
            forall|i: int| 0 <= i < k ==> (#[trigger] copy@[i])@ == texts@[i]@,
        decreases texts@.len() - k,
    {
        copy.push(texts[k].clone());
        k += 1;
    }
    assert(copy.deep_view() =~= texts.deep_view());
    copy
}

/// A text in which the pattern does not occur stays as it is.
pub proof fn text_without_pattern_is_kept(s: Seq<char>, pattern: Seq<char>, with: Seq<char>)
    requires
        forall|i: int| 0 <= i < s.len() ==> !pattern.is_prefix_of(#[trigger] s.skip(i)),
    ensures
        replaced(s, pattern, with) == s,
    decreases s.len(),
{
    if pattern.len() > 0 && s.len() > 0 {
        let rest = s.skip(1);
        assert(s.skip(0) =~= s);
        assert forall|i: int| 0 <= i < rest.len() implies !pattern.is_prefix_of(
            #[trigger] rest.skip(i),
        ) by {
            assert(rest.skip(i) =~= s.skip(i + 1));
        }
        text_without_pattern_is_kept(rest, pattern, with);
        assert(s =~= seq![s[0]] + rest);
    }
}

/// What stands before the first occurrence of the pattern is kept, the occurrence is replaced,
/// and the replacing goes on behind it.
pub proof fn first_occurrence_is_replaced(
    s: Seq<char>,
    pattern: Seq<char>,
    with: Seq<char>,
    at: int,
)
    requires
        pattern.len() > 0,
        0 <= at < s.len(),
        pattern.is_prefix_of(s.skip(at)),
        forall|i: int| 0 <= i < at ==> !pattern.is_prefix_of(#[trigger] s.skip(i)),
    ensures
        replaced(s, pattern, with) == s.take(at) + with + replaced(
            s.skip(at + pattern.len()),
            pattern,
            with,
        ),
    decreases at,
{
    assert(s.skip(0) =~= s);
    if at == 0 {
        assert(s.take(0) + with =~= with);
    } else {
        let rest = s.skip(1);
        assert(rest.skip(at - 1) =~= s.skip(at));
        assert forall|i: int| 0 <= i < at - 1 implies !pattern.is_prefix_of(
            #[trigger] rest.skip(i),
        ) by {
            assert(rest.skip(i) =~= s.skip(i + 1));
        }
        first_occurrence_is_replaced(rest, pattern, with, at - 1);
        assert(rest.skip(at - 1 + pattern.len()) =~= s.skip(at + pattern.len()));
        assert(s.take(at) =~= seq![s[0]] + rest.take(at - 1));
        assert(replaced(s, pattern, with) =~= s.take(at) + with + replaced(
            s.skip(at + pattern.len()),
            pattern,
            with,
        ));
    }
}

} // verus!
