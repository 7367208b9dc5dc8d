//! Text building blocks: placeholder substitution, decimal numerals and
//! joining words.

use vstd::prelude::*;
use vstd::string::*;

verus! {

/// `pattern` stands in `s` at offset `at`.
pub open spec fn occurs_at(s: Seq<char>, at: int, pattern: Seq<char>) -> bool {
    &&& 0 <= at
    &&& at + pattern.len() <= s.len()
    &&& s.subrange(at, at + pattern.len()) == pattern
}

/// `s` with every occurrence of `pattern` replaced by `with`, found from left
/// to right; an occurrence begins where the previous one ended at the earliest.
/// An empty pattern occurs nowhere.
pub open spec fn replace_all(s: Seq<char>, pattern: Seq<char>, with: Seq<char>) -> Seq<char>
    decreases s.len(),
{
    if pattern.len() == 0 || s.len() < pattern.len() {
        s
    } else if occurs_at(s, 0, pattern) {
        with + replace_all(s.skip(pattern.len() as int), pattern, with)
    } else {
        seq![s[0]] + replace_all(s.skip(1), pattern, with)
    }
}

/// The placeholder that stands for the title.
pub open spec fn title_token() -> Seq<char> {
    seq!['{', 't', 'i', 't', 'l', 'e', '}']
}

/// The placeholder that stands for the message.
pub open spec fn message_token() -> Seq<char> {
    seq!['{', 'm', 'e', 's', 's', 'a', 'g', 'e', '}']
}

/// A template with its placeholders filled in: first every `{title}`, then, in
/// what that gave, every `{message}`.
pub open spec fn filled(template: Seq<char>, title: Seq<char>, message: Seq<char>) -> Seq<char> {
    replace_all(replace_all(template, title_token(), title), message_token(), message)
}

/// A string in which the pattern stands nowhere is left as it is.
pub proof fn lemma_replace_nothing(s: Seq<char>, pattern: Seq<char>, with: Seq<char>)
    requires
        forall|at: int| !occurs_at(s, at, pattern),
    ensures
        replace_all(s, pattern, with) == s,
    decreases s.len(),
{
    if pattern.len() > 0 && s.len() >= pattern.len() {
        let rest = s.skip(1);
        assert forall|at: int| !occurs_at(rest, at, pattern) by {
            if occurs_at(rest, at, pattern) {
                assert(rest.subrange(at, at + pattern.len()) == s.subrange(
                    at + 1,
                    at + 1 + pattern.len(),
                ));
                assert(occurs_at(s, at + 1, pattern));
            }
        }
        lemma_replace_nothing(rest, pattern, with);
        assert(s == seq![s[0]] + rest);
    }
}

/// Every occurrence is replaced, wherever it stands: around an occurrence of
/// the pattern, what comes before and what comes after are replaced each for
/// itself. This holds of a pattern whose first character stands nowhere else
/// in it, so that two occurrences cannot overlap.
pub proof fn lemma_replace_around(
    before: Seq<char>,
    after: Seq<char>,
    pattern: Seq<char>,
    with: Seq<char>,
)
    requires
        pattern.len() > 0,
        forall|k: int| 0 < k < pattern.len() ==> #[trigger] pattern[k] != pattern[0],
    ensures
        replace_all(before + pattern + after, pattern, with) == replace_all(before, pattern, with)
            + with + replace_all(after, pattern, with),
    decreases before.len(),
{
    let s = before + pattern + after;
    let n = pattern.len() as int;
    if before.len() == 0 {
        assert(s.subrange(0, n) == pattern);
        assert(s.skip(n) == after);
        assert(replace_all(before, pattern, with) == before);
        assert(before + with == with);
    } else if occurs_at(s, 0, pattern) {
        if before.len() < n {
            let k = before.len() as int;
            assert(s.subrange(0, n)[k] == s[k]);
            assert(s[k] == pattern[0]);
            assert(false);
        }
        assert(before.subrange(0, n) == s.subrange(0, n));
        assert(s.skip(n) == before.skip(n) + pattern + after);
        lemma_replace_around(before.skip(n), after, pattern, with);
        assert(replace_all(before, pattern, with) == with + replace_all(
            before.skip(n),
            pattern,
            with,
        ));
    } else {
        assert(s.skip(1) == before.skip(1) + pattern + after);
        lemma_replace_around(before.skip(1), after, pattern, with);
        if before.len() >= n {
            assert(before.subrange(0, n) == s.subrange(0, n));
        }
        assert(before == seq![before[0]] + before.skip(1));
        assert(replace_all(before, pattern, with) == seq![before[0]] + replace_all(
            before.skip(1),
            pattern,
            with,
        ));
        assert(s[0] == before[0]);
    }
}

/// Every `{title}` of a template is replaced, however many there are: around
/// one of them, both sides are replaced each for itself.
pub proof fn lemma_every_title_replaced(before: Seq<char>, after: Seq<char>, with: Seq<char>)
    ensures
        replace_all(before + title_token() + after, title_token(), with) == replace_all(
            before,
            title_token(),
            with,
        ) + with + replace_all(after, title_token(), with),
{
    lemma_replace_around(before, after, title_token(), with);
}

/// Every `{message}` of a template is replaced, however many there are: around
/// one of them, both sides are replaced each for itself.
pub proof fn lemma_every_message_replaced(before: Seq<char>, after: Seq<char>, with: Seq<char>)
    ensures
        replace_all(before + message_token() + after, message_token(), with) == replace_all(
            before,
            message_token(),
            with,
        ) + with + replace_all(after, message_token(), with),
{
    lemma_replace_around(before, after, message_token(), with);
}

/// `String::push` of the standard library appends the given character to the
/// end of the string and changes nothing else.
pub assume_specification[ String::push ](s: &mut String, ch: char)
    ensures
        final(s)@ == old(s)@.push(ch),
;

/// The characters of a string, in order.
pub fn chars_of(s: &str) -> (v: Vec<char>)
    ensures
        v@ == s@,
{
    let mut v: Vec<char> = Vec::new();
    for c in it: s.chars()
        invariant
            v@ == it.seq().take(it.index() as int),
            it.seq() == s@,
    {
        v.push(c);
    }
    v
}

/// Whether two strings hold the same characters.
pub fn same_text(a: &str, b: &str) -> (same: bool)
    ensures
        same == (a@ == b@),
{
    let x = chars_of(a);
    let y = chars_of(b);
    if x.len() != y.len() {
        return false;
    }
    let mut i: usize = 0;
    while i < x.len()
        invariant
            i <= x.len(),
            x.len() == y.len(),
            x@ == a@,
            y@ == b@,
            x@.take(i as int) == y@.take(i as int),
        decreases x.len() - i,
    {
        if x[i] != y[i] {
            assert(a@[i as int] != b@[i as int]);
            return false;
        }
        assert(x@.take(i + 1) == x@.take(i as int).push(x@[i as int]));
        assert(y@.take(i + 1) == y@.take(i as int).push(y@[i as int]));
        i += 1;
    }
    assert(x@.take(x.len() as int) == x@);
    assert(y@.take(y.len() as int) == y@);
    true
}

fn matches_at(text: &Vec<char>, at: usize, pattern: &Vec<char>) -> (found: bool)
    requires
        at <= text.len(),
    ensures
        found == occurs_at(text@, at as int, pattern@),
{
    if pattern.len() > text.len() - at {
        return false;
    }
    let mut k: usize = 0;
    while k < pattern.len()
        invariant
            k <= pattern.len(),
            at + pattern.len() <= text.len(),
            text@.subrange(at as int, at + k) == pattern@.take(k as int),
        decreases pattern.len() - k,
    {
        if text[at + k] != pattern[k] {
            assert(text@.subrange(at as int, at + pattern.len())[k as int] != pattern@[k as int]);
            return false;
        }
        assert(text@.subrange(at as int, at + k + 1) == text@.subrange(at as int, at + k).push(
            text@[at + k],
        ));
        assert(pattern@.take(k + 1) == pattern@.take(k as int).push(pattern@[k as int]));
        k += 1;
    }
    assert(pattern@.take(pattern.len() as int) == pattern@);
    true
}

/// Replaces every occurrence of `pattern` in `template` by `value`.
pub fn substitute(template: &str, pattern: &str, value: &str) -> (out: String)
    ensures
        out@ == replace_all(template@, pattern@, value@),
{
    let text = chars_of(template);
    let wanted = chars_of(pattern);
    let mut out = String::new();
    if wanted.len() == 0 {
        out.append(template);
        return out;
    }
    let mut at: usize = 0;
    assert(text@.skip(0) == text@);
    assert(out@ + replace_all(text@, wanted@, value@) == replace_all(text@, wanted@, value@));
    while at < text.len()
        invariant
            at <= text.len(),
            wanted.len() > 0,
            text@ == template@,
            wanted@ == pattern@,
            out@ + replace_all(text@.skip(at as int), wanted@, value@) == replace_all(
                text@,
                wanted@,
                value@,
            ),
        decreases text.len() - at,
    {
        let ghost rest = text@.skip(at as int);
        if matches_at(&text, at, &wanted) {
            assert(rest.subrange(0, wanted.len() as int) == text@.subrange(
                at as int,
                at + wanted.len(),
            ));
            assert(rest.skip(wanted.len() as int) == text@.skip(at + wanted.len()));
            out.append(value);
            at += wanted.len();
        } else {
            assert(rest.len() >= wanted.len() ==> rest.subrange(0, wanted.len() as int)
                == text@.subrange(at as int, at + wanted.len()));
            assert(rest.skip(1) == text@.skip(at + 1));
            assert(rest == seq![rest[0]] + rest.skip(1));
            out.push(text[at]);
            at += 1;
        }
    }
    assert(text@.skip(text.len() as int) == Seq::<char>::empty());
    out
}

/// Fills the placeholders of `template`: every `{title}` becomes `title`, then
/// every `{message}` becomes `message`.
pub fn fill(template: &str, title: &str, message: &str) -> (out: String)
    ensures
        out@ == filled(template@, title@, message@),
{
    proof {
        reveal_strlit("{title}");
        reveal_strlit("{message}");
    }
    assert("{title}"@ == title_token());
    assert("{message}"@ == message_token());
    let first = substitute(template, "{title}", title);
    substitute(first.as_str(), "{message}", message)
}

/// The character of a decimal digit.
pub open spec fn digit(d: int) -> char {
    if d == 0 {
        '0'
    } else if d == 1 {
        '1'
    } else if d == 2 {
        '2'
    } else if d == 3 {
        '3'
    } else if d == 4 {
        '4'
    } else if d == 5 {
        '5'
    } else if d == 6 {
        '6'
    } else if d == 7 {
        '7'
    } else if d == 8 {
        '8'
    } else {
        '9'
    }
}

/// A natural number in decimal, without leading zeros.
pub open spec fn decimal(n: nat) -> Seq<char>
    decreases n,
{
    if n < 10 {
        seq![digit(n as int)]
    } else {
        decimal(n / 10).push(digit((n % 10) as int))
    }
}

/// An integer in decimal, with a minus sign before a negative one.
pub open spec fn signed_decimal(v: int) -> Seq<char> {
    if v < 0 {
        seq!['-'] + decimal((-v) as nat)
    } else {
        decimal(v as nat)
    }
}

fn digit_char(d: u64) -> (c: char)
    requires
        d < 10,
    ensures
        c == digit(d as int),
{
    if d == 0 {
        '0'
    } else if d == 1 {
        '1'
    } else if d == 2 {
        '2'
    } else if d == 3 {
        '3'
    } else if d == 4 {
        '4'
    } else if d == 5 {
        '5'
    } else if d == 6 {
        '6'
    } else if d == 7 {
        '7'
    } else if d == 8 {
        '8'
    } else {
        '9'
    }
}

/// Appends `n` in decimal to `out`.
pub fn push_decimal(out: &mut String, n: u64)
    ensures
        final(out)@ == old(out)@ + decimal(n as nat),
    decreases n,
{
    if n >= 10 {
        push_decimal(out, n / 10);
    }
    out.push(digit_char(n % 10));
}

/// Appends `v` in decimal to `out`, with its sign if it is negative.
pub fn push_signed(out: &mut String, v: i32)
    ensures
        final(out)@ == old(out)@ + signed_decimal(v as int),
{
    let wide: i64 = v as i64;
    if wide < 0 {
        out.push('-');
        push_decimal(out, (-wide) as u64);
    } else {
        push_decimal(out, wide as u64);
    }
}

/// The character sequences of a list of strings.
pub open spec fn texts(words: Seq<&str>) -> Seq<Seq<char>> {
    Seq::new(words.len(), |i: int| words[i]@)
}

/// The words in order, with `separator` between neighbours.
pub open spec fn joined(words: Seq<Seq<char>>, separator: Seq<char>) -> Seq<char>
    decreases words.len(),
{
    if words.len() == 0 {
        Seq::empty()
    } else if words.len() == 1 {
        words[0]
    } else {
        joined(words.drop_last(), separator) + separator + words.last()
    }
}

/// Joins the words, with `separator` between neighbours.
pub fn join(words: &Vec<&str>, separator: &str) -> (out: String)
    ensures
        out@ == joined(texts(words@), separator@),
{
    let mut out = String::new();
    let mut i: usize = 0;
    while i < words.len()
        invariant
            i <= words.len(),
            out@ == joined(texts(words@).take(i as int), separator@),
        decreases words.len() - i,
    {
        let ghost upto = texts(words@).take(i + 1);
        assert(upto.drop_last() == texts(words@).take(i as int));
        assert(upto.last() == words@[i as int]@);
        if i > 0 {
            out.append(separator);
        }
        out.append(words[i]);
        i += 1;
    }
    assert(texts(words@).take(words.len() as int) == texts(words@));
    out
}

} // verus!
