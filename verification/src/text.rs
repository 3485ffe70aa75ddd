//! Text handling shared by the daemon and the panels: the pieces of `str`
//! the library needs (`trim`, `lines`, `split_whitespace`, `starts_with`,
//! `join`, decimal parsing and printing), each with a mathematical
//! statement of what it computes.
use vstd::prelude::*;
use vstd::string::StringExecFns;

verus! {

broadcast use vstd::string::group_string_axioms;

// ---------------------------------------------------------------------------
// Specifications
// ---------------------------------------------------------------------------

/// Unicode `White_Space`: the characters `char::is_whitespace` accepts.
pub open spec fn is_white(c: char) -> bool {
    let n = c as u32;
    ||| n == 0x20
    ||| (0x09 <= n && n <= 0x0d)
    ||| n == 0x85
    ||| n == 0xa0
    ||| n == 0x1680
    ||| (0x2000 <= n && n <= 0x200a)
    ||| n == 0x2028
    ||| n == 0x2029
    ||| n == 0x202f
    ||| n == 0x205f
    ||| n == 0x3000
}

/// No character of `s` is white space.
pub open spec fn has_no_white(s: Seq<char>) -> bool {
    forall|i: int| 0 <= i < s.len() ==> !is_white(#[trigger] s[i])
}

/// Every character of `s` is white space.
pub open spec fn all_white(s: Seq<char>) -> bool {
    forall|i: int| 0 <= i < s.len() ==> is_white(#[trigger] s[i])
}

/// `s` without its leading white space.
pub open spec fn trim_start(s: Seq<char>) -> Seq<char>
    decreases s.len(),
{
    if s.len() > 0 && is_white(s[0]) {
        trim_start(s.drop_first())
    } else {
        s
    }
}

/// `s` without its trailing white space.
pub open spec fn trim_end(s: Seq<char>) -> Seq<char>
    decreases s.len(),
{
    if s.len() > 0 && is_white(s.last()) {
        trim_end(s.drop_last())
    } else {
        s
    }
}

/// `s` without leading and trailing white space (`str::trim`).
pub open spec fn trim(s: Seq<char>) -> Seq<char> {
    trim_end(trim_start(s))
}

/// `line` without one trailing carriage return, if it has one.
pub open spec fn strip_cr(line: Seq<char>) -> Seq<char> {
    if line.len() > 0 && line.last() == '\r' {
        line.drop_last()
    } else {
        line
    }
}

/// The lines of `cur + s`, where `cur` is the part of the current line seen
/// so far: a line ends at `'\n'` (and then loses one `'\r'` before it); a
/// last line without `'\n'` is kept as it is, and an empty one is no line.
pub open spec fn lines_from(s: Seq<char>, cur: Seq<char>) -> Seq<Seq<char>>
    decreases s.len(),
{
    if s.len() == 0 {
        if cur.len() == 0 {
            seq![]
        } else {
            seq![cur]
        }
    } else if s[0] == '\n' {
        seq![strip_cr(cur)] + lines_from(s.drop_first(), seq![])
    } else {
        lines_from(s.drop_first(), cur.push(s[0]))
    }
}

/// The lines of `s` (`str::lines`).
pub open spec fn lines(s: Seq<char>) -> Seq<Seq<char>> {
    lines_from(s, seq![])
}

/// The white-space separated words of `cur + s`, where `cur` is the part of
/// the current word seen so far.
pub open spec fn words_from(s: Seq<char>, cur: Seq<char>) -> Seq<Seq<char>>
    decreases s.len(),
{
    if s.len() == 0 {
        if cur.len() == 0 {
            seq![]
        } else {
            seq![cur]
        }
    } else if is_white(s[0]) {
        if cur.len() == 0 {
            words_from(s.drop_first(), seq![])
        } else {
            seq![cur] + words_from(s.drop_first(), seq![])
        }
    } else {
        words_from(s.drop_first(), cur.push(s[0]))
    }
}

/// The white-space separated words of `s` (`str::split_whitespace`).
pub open spec fn words(s: Seq<char>) -> Seq<Seq<char>> {
    words_from(s, seq![])
}

/// `parts` joined with `sep` between each two of them (`[..].join(sep)`).
pub open spec fn join(parts: Seq<Seq<char>>, sep: Seq<char>) -> Seq<char>
    decreases parts.len(),
{
    if parts.len() == 0 {
        seq![]
    } else if parts.len() == 1 {
        parts[0]
    } else {
        join(parts.drop_last(), sep) + sep + parts.last()
    }
}

/// `s` begins with `prefix`.
pub open spec fn starts_with(s: Seq<char>, prefix: Seq<char>) -> bool {
    prefix.len() <= s.len() && s.subrange(0, prefix.len() as int) == prefix
}

/// An ASCII decimal digit.
pub open spec fn is_digit(c: char) -> bool {
    48 <= (c as u32) && (c as u32) <= 57
}

/// The value of one decimal digit.
pub open spec fn digit_value(c: char) -> nat {
    ((c as u32) - 48) as nat
}

/// The decimal digit for `d`, where `d < 10`.
pub open spec fn digit_char(d: nat) -> char {
    (d + 48) as char
}

/// Every character of `s` is a decimal digit.
pub open spec fn all_digits(s: Seq<char>) -> bool {
    forall|i: int| 0 <= i < s.len() ==> is_digit(#[trigger] s[i])
}

/// The number that the digits `s` write in base ten.
pub open spec fn digits_value(s: Seq<char>) -> nat
    decreases s.len(),
{
    if s.len() == 0 {
        0
    } else {
        digits_value(s.drop_last()) * 10 + digit_value(s.last())
    }
}

/// The digits of an unsigned number as `str::parse` reads them: after one
/// optional leading `'+'`.
pub open spec fn unsigned_digits(s: Seq<char>) -> Seq<char> {
    if s.len() > 0 && s[0] == '+' {
        s.drop_first()
    } else {
        s
    }
}

/// What `str::parse` gives for an unsigned integer type whose largest value
/// is `max`: the number, or `None` where it reports an error (no digits, a
/// character that is no digit, a value above `max`).
pub open spec fn parse_unsigned(s: Seq<char>, max: nat) -> Option<nat> {
    let d = unsigned_digits(s);
    if d.len() > 0 && all_digits(d) && digits_value(d) <= max {
        Some(digits_value(d))
    } else {
        None
    }
}

/// The decimal notation of `n`, without leading zeros (`n.to_string()`).
pub open spec fn decimal(n: nat) -> Seq<char>
    decreases n,
{
    if n < 10 {
        seq![digit_char(n)]
    } else {
        decimal(n / 10).push(digit_char(n % 10))
    }
}

/// The views of a sequence of strings.
pub open spec fn views(v: Seq<String>) -> Seq<Seq<char>> {
    v.map_values(|x: String| x@)
}

// ---------------------------------------------------------------------------
// Lemmas
// ---------------------------------------------------------------------------

pub proof fn lemma_trim_start_of_white_prefix(s: Seq<char>, i: int)
    requires
        0 <= i <= s.len(),
        all_white(s.subrange(0, i)),
    ensures
        trim_start(s) == trim_start(s.subrange(i, s.len() as int)),
    decreases i,
{
    if i > 0 {
        assert(is_white(s.subrange(0, i)[0]));
        assert(s.drop_first().subrange(0, i - 1) =~= s.subrange(1, i));
        assert forall|k: int| 0 <= k < i - 1 implies is_white(#[trigger] s.subrange(1, i)[k]) by {
            assert(s.subrange(1, i)[k] == s.subrange(0, i)[k + 1]);
        }
        lemma_trim_start_of_white_prefix(s.drop_first(), i - 1);
        assert(s.drop_first().subrange(i - 1, s.drop_first().len() as int) =~= s.subrange(
            i,
            s.len() as int,
        ));
    } else {
        assert(s.subrange(0, s.len() as int) =~= s);
    }
}

pub proof fn lemma_trim_end_of_white_suffix(s: Seq<char>, j: int)
    requires
        0 <= j <= s.len(),
        all_white(s.subrange(j, s.len() as int)),
    ensures
        trim_end(s) == trim_end(s.subrange(0, j)),
    decreases s.len() - j,
{
    if j < s.len() {
        assert(is_white(s.subrange(j, s.len() as int)[s.len() - 1 - j]));
        assert forall|k: int| 0 <= k < s.len() - 1 - j implies is_white(
            #[trigger] s.drop_last().subrange(j, s.len() - 1)[k],
        ) by {
            assert(s.drop_last().subrange(j, s.len() - 1)[k] == s.subrange(j, s.len() as int)[k]);
        }
        lemma_trim_end_of_white_suffix(s.drop_last(), j);
        assert(s.drop_last().subrange(0, j) =~= s.subrange(0, j));
    } else {
        assert(s.subrange(0, s.len() as int) =~= s);
    }
}

/// Trailing white space is what `trim` removes from a word.
pub proof fn lemma_trim_word_then_white(w: Seq<char>, ws: Seq<char>)
    requires
        w.len() > 0,
        has_no_white(w),
        all_white(ws),
    ensures
        trim(w + ws) == w,
{
    let s = w + ws;
    assert(!is_white(w[0]));
    assert(trim_start(s) == s);
    assert(s.subrange(w.len() as int, s.len() as int) =~= ws);
    lemma_trim_end_of_white_suffix(s, w.len() as int);
    assert(s.subrange(0, w.len() as int) =~= w);
    assert(!is_white(w.last()));
}

/// Only white space trims away to nothing.
pub proof fn lemma_trim_empty_is_white(s: Seq<char>)
    ensures
        trim(s).len() == 0 <==> all_white(s),
{
    lemma_trim_start_white(s);
    lemma_trim_end_empty(trim_start(s));
}

/// `trim_start(s)` is all white space exactly when `s` is; it is empty then.
proof fn lemma_trim_start_white(s: Seq<char>)
    ensures
        all_white(trim_start(s)) <==> all_white(s),
        all_white(s) ==> trim_start(s).len() == 0,
    decreases s.len(),
{
    if s.len() > 0 && is_white(s[0]) {
        lemma_trim_start_white(s.drop_first());
        if all_white(s.drop_first()) {
            assert forall|i: int| 0 <= i < s.len() implies is_white(#[trigger] s[i]) by {
                if i > 0 {
                    assert(s[i] == s.drop_first()[i - 1]);
                }
            }
        }
        if all_white(s) {
            assert forall|i: int| 0 <= i < s.drop_first().len() implies is_white(
                #[trigger] s.drop_first()[i],
            ) by {
                assert(s.drop_first()[i] == s[i + 1]);
            }
        }
    } else if s.len() > 0 {
        assert(!all_white(s));
        assert(!is_white(trim_start(s)[0]));
    }
}

/// `trim_end(t)` is empty exactly when `t` is all white space.
proof fn lemma_trim_end_empty(t: Seq<char>)
    ensures
        trim_end(t).len() == 0 <==> all_white(t),
    decreases t.len(),
{
    if t.len() > 0 && is_white(t.last()) {
        lemma_trim_end_empty(t.drop_last());
        if all_white(t.drop_last()) {
            assert forall|i: int| 0 <= i < t.len() implies is_white(#[trigger] t[i]) by {
                if i < t.len() - 1 {
                    assert(t[i] == t.drop_last()[i]);
                }
            }
        }
        if all_white(t) {
            assert forall|i: int| 0 <= i < t.drop_last().len() implies is_white(
                #[trigger] t.drop_last()[i],
            ) by {
                assert(t.drop_last()[i] == t[i]);
            }
        }
    } else if t.len() > 0 {
        assert(!is_white(t[t.len() - 1]));
    }
}

/// The lines of white space are white space.
pub proof fn lemma_lines_from_white(s: Seq<char>, cur: Seq<char>)
    requires
        all_white(s),
        all_white(cur),
    ensures
        forall|i: int|
            0 <= i < lines_from(s, cur).len() ==> all_white(#[trigger] lines_from(s, cur)[i]),
    decreases s.len(),
{
    if s.len() == 0 {
        if cur.len() > 0 {
            assert(lines_from(s, cur) == seq![cur]);
            assert(seq![cur][0] == cur);
        }
    } else {
        assert(is_white(s[0]));
        assert forall|i: int| 0 <= i < s.drop_first().len() implies is_white(
            #[trigger] s.drop_first()[i],
        ) by {
            assert(s.drop_first()[i] == s[i + 1]);
        }
        if s[0] == '\n' {
            lemma_lines_from_white(s.drop_first(), seq![]);
            let l = strip_cr(cur);
            assert forall|k: int| 0 <= k < l.len() implies is_white(#[trigger] l[k]) by {
                assert(l[k] == cur[k]);
            }
            let rest = lines_from(s.drop_first(), seq![]);
            assert(lines_from(s, cur) == seq![l] + rest);
            assert forall|i: int| 0 <= i < (seq![l] + rest).len() implies all_white(
                #[trigger] (seq![l] + rest)[i],
            ) by {
                if i > 0 {
                    assert((seq![l] + rest)[i] == rest[i - 1]);
                }
            }
        } else {
            let next = cur.push(s[0]);
            assert forall|k: int| 0 <= k < next.len() implies is_white(#[trigger] next[k]) by {
                if k < cur.len() {
                    assert(next[k] == cur[k]);
                }
            }
            lemma_lines_from_white(s.drop_first(), next);
            assert(lines_from(s, cur) == lines_from(s.drop_first(), next));
        }
    }
}

/// White-space parts joined by white space are white space.
pub proof fn lemma_join_white(parts: Seq<Seq<char>>, sep: Seq<char>)
    requires
        forall|i: int| 0 <= i < parts.len() ==> all_white(#[trigger] parts[i]),
        all_white(sep),
    ensures
        all_white(join(parts, sep)),
    decreases parts.len(),
{
    if parts.len() == 1 {
        assert(all_white(parts[0]));
    } else if parts.len() > 1 {
        assert forall|i: int| 0 <= i < parts.drop_last().len() implies all_white(
            #[trigger] parts.drop_last()[i],
        ) by {
            assert(parts.drop_last()[i] == parts[i]);
        }
        lemma_join_white(parts.drop_last(), sep);
        let a = join(parts.drop_last(), sep);
        let l = parts.last();
        assert(all_white(l));
        assert forall|k: int| 0 <= k < (a + sep + l).len() implies is_white(
            #[trigger] (a + sep + l)[k],
        ) by {
            if k < a.len() {
                assert((a + sep + l)[k] == a[k]);
            } else if k < a.len() + sep.len() {
                assert((a + sep + l)[k] == sep[k - a.len()]);
            } else {
                assert((a + sep + l)[k] == l[k - a.len() - sep.len()]);
            }
        }
    }
}

/// Text that trims to nothing has only lines that trim to nothing.
pub proof fn lemma_blank_text_blank_lines(s: Seq<char>)
    requires
        trim(s).len() == 0,
    ensures
        forall|i: int| 0 <= i < lines(s).len() ==> trim(#[trigger] lines(s)[i]).len() == 0,
{
    lemma_trim_empty_is_white(s);
    lemma_lines_from_white(s, seq![]);
    assert forall|i: int| 0 <= i < lines(s).len() implies trim(#[trigger] lines(s)[i]).len()
        == 0 by {
        lemma_trim_empty_is_white(lines(s)[i]);
    }
}

/// The value of digits followed by one more digit.
pub proof fn lemma_digits_value_push(s: Seq<char>, c: char)
    ensures
        digits_value(s.push(c)) == digits_value(s) * 10 + digit_value(c),
{
    assert(s.push(c).drop_last() =~= s);
}

/// `decimal(n)` is a non-empty string of digits that reads back as `n`.
pub proof fn lemma_decimal(n: nat)
    ensures
        decimal(n).len() > 0,
        all_digits(decimal(n)),
        digits_value(decimal(n)) == n,
        decimal(n)[0] != '+',
        decimal(n).len() <= 1 || n >= 10,
    decreases n,
{
    if n < 10 {
        assert(digit_value(digit_char(n)) == n);
        assert(seq![digit_char(n)].drop_last() =~= Seq::<char>::empty());
        assert(digits_value(Seq::<char>::empty()) == 0);
        assert(digits_value(seq![digit_char(n)]) == n);
    } else {
        lemma_decimal(n / 10);
        let d = decimal(n / 10);
        lemma_digits_value_push(d, digit_char(n % 10));
        assert(digit_value(digit_char(n % 10)) == n % 10);
        assert((n / 10) * 10 + n % 10 == n);
        assert(d.push(digit_char(n % 10))[0] == d[0]);
        assert forall|i: int| 0 <= i < d.len() + 1 implies is_digit(
            #[trigger] d.push(digit_char(n % 10))[i],
        ) by {
            if i < d.len() {
                assert(d.push(digit_char(n % 10))[i] == d[i]);
            }
        }
    }
}

/// Decimal notation reads back as the number it writes.
pub proof fn lemma_parse_decimal(n: nat, max: nat)
    requires
        n <= max,
    ensures
        parse_unsigned(decimal(n), max) == Some(n),
{
    lemma_decimal(n);
    assert(unsigned_digits(decimal(n)) == decimal(n));
}

/// Digits contain no white space.
pub proof fn lemma_digits_not_white(s: Seq<char>)
    requires
        all_digits(s),
    ensures
        has_no_white(s),
{
    assert forall|i: int| 0 <= i < s.len() implies !is_white(#[trigger] s[i]) by {
        assert(is_digit(s[i]));
    }
}

/// Every word is a non-empty run of characters that are not white space.
pub proof fn lemma_words_from_are_words(s: Seq<char>, cur: Seq<char>)
    requires
        has_no_white(cur),
    ensures
        forall|i: int|
            0 <= i < words_from(s, cur).len() ==> (#[trigger] words_from(s, cur)[i]).len() > 0
                && has_no_white(words_from(s, cur)[i]),
    decreases s.len(),
{
    if s.len() == 0 {
        if cur.len() > 0 {
            assert(words_from(s, cur) == seq![cur]);
            assert(seq![cur][0] == cur);
        }
    } else if is_white(s[0]) {
        lemma_words_from_are_words(s.drop_first(), seq![]);
        if cur.len() > 0 {
            let rest = words_from(s.drop_first(), seq![]);
            assert(words_from(s, cur) == seq![cur] + rest);
            assert forall|i: int| 0 <= i < (seq![cur] + rest).len() implies (#[trigger] (seq![
                cur,
            ] + rest)[i]).len() > 0 && has_no_white((seq![cur] + rest)[i]) by {
                if i > 0 {
                    assert((seq![cur] + rest)[i] == rest[i - 1]);
                }
            }
        }
    } else {
        let next = cur.push(s[0]);
        assert forall|k: int| 0 <= k < next.len() implies !is_white(#[trigger] next[k]) by {
            if k < cur.len() {
                assert(next[k] == cur[k]);
            }
        }
        lemma_words_from_are_words(s.drop_first(), next);
        assert(words_from(s, cur) == words_from(s.drop_first(), next));
    }
}

/// Every word of `s` is a non-empty run of characters that are not white
/// space.
pub proof fn lemma_words_are_words(s: Seq<char>)
    ensures
        forall|i: int|
            0 <= i < words(s).len() ==> (#[trigger] words(s)[i]).len() > 0 && has_no_white(
                words(s)[i],
            ),
{
    lemma_words_from_are_words(s, seq![]);
}

// ---------------------------------------------------------------------------
// Executable functions
// ---------------------------------------------------------------------------

/// The characters of `s`, in order.
pub fn chars_of(s: &str) -> (v: Vec<char>)
    ensures
        v@ == s@,
{
    let mut v: Vec<char> = Vec::new();
    for c in it: s.chars()
        invariant
            v@ == it.seq().take(it.index()),
            it.seq() == s@,
    {
        v.push(c);
    }
    v
}

/// The characters `from..to` of `s` as a `String`.
pub fn substring(s: &str, from: usize, to: usize) -> (r: String)
    requires
        from <= to <= s@.len(),
    ensures
        r@ == s@.subrange(from as int, to as int),
{
    let part = s.substring_char(from, to);
    part.to_string()
}

/// Whether `c` is white space (`char::is_whitespace`).
pub fn is_white_char(c: char) -> (b: bool)
    ensures
        b == is_white(c),
{
    let n = c as u32;
    n == 0x20 || (0x09 <= n && n <= 0x0d) || n == 0x85 || n == 0xa0 || n == 0x1680 || (0x2000
        <= n && n <= 0x200a) || n == 0x2028 || n == 0x2029 || n == 0x202f || n == 0x205f || n
        == 0x3000
}

/// `s` without leading and trailing white space (`str::trim`).
pub fn trim_str(s: &str) -> (r: String)
    ensures
        r@ == trim(s@),
{
    let cs = chars_of(s);
    let len = cs.len();
    let mut i: usize = 0;
    while i < len && is_white_char(cs[i])
        invariant
            i <= len == cs@.len(),
            cs@ == s@,
            all_white(s@.subrange(0, i as int)),
        decreases len - i,
    {
        assert(s@.subrange(0, i + 1) =~= s@.subrange(0, i as int).push(cs@[i as int]));
        i = i + 1;
    }
    proof {
        lemma_trim_start_of_white_prefix(s@, i as int);
    }
    let ghost t = s@.subrange(i as int, len as int);
    assert(trim_start(t) == t);
    let mut j: usize = len;
    while j > i && is_white_char(cs[j - 1])
        invariant
            i <= j <= len == cs@.len(),
            cs@ == s@,
            t == s@.subrange(i as int, len as int),
            all_white(t.subrange(j - i, t.len() as int)),
        decreases j,
    {
        assert(t.subrange(j - 1 - i, t.len() as int) =~= seq![cs@[j - 1]] + t.subrange(
            j - i,
            t.len() as int,
        ));
        j = j - 1;
    }
    proof {
        lemma_trim_end_of_white_suffix(t, j - i);
        assert(t.subrange(0, j - i) =~= s@.subrange(i as int, j as int));
    }
    substring(s, i, j)
}


/// The lines of `s` (`str::lines`).
pub fn lines_of(s: &str) -> (r: Vec<String>)
    ensures
        views(r@) == lines(s@),
{
    let cs = chars_of(s);
    let len = cs.len();
    let mut out: Vec<String> = Vec::new();
    let mut start: usize = 0;
    let mut i: usize = 0;
    assert(s@.subrange(0, len as int) =~= s@);
    assert(s@.subrange(0, 0) =~= Seq::<char>::empty());
    assert(views(out@) =~= Seq::<Seq<char>>::empty());
    while i < len
        invariant
            start <= i <= len == cs@.len(),
            cs@ == s@,
            lines(s@) == views(out@) + lines_from(
                s@.subrange(i as int, len as int),
                s@.subrange(start as int, i as int),
            ),
        decreases len - i,
    {
        let ghost rest = s@.subrange(i as int, len as int);
        let ghost cur = s@.subrange(start as int, i as int);
        assert(rest[0] == cs@[i as int]);
        assert(rest.drop_first() =~= s@.subrange(i + 1, len as int));
        if cs[i] == '\n' {
            let end = if i > start && cs[i - 1] == '\r' {
                i - 1
            } else {
                i
            };
            let line = substring(s, start, end);
            proof {
                if i > start && cs@[i - 1] == '\r' {
                    assert(cur.drop_last() =~= s@.subrange(start as int, end as int));
                } else {
                    assert(cur =~= s@.subrange(start as int, end as int));
                }
                assert(line@ == strip_cr(cur));
                assert(s@.subrange(i + 1, i + 1) =~= Seq::<char>::empty());
            }
            let ghost before = views(out@);
            out.push(line);
            assert(views(out@) =~= before.push(line@));
            assert(lines(s@) =~= views(out@) + lines_from(
                s@.subrange(i + 1, len as int),
                s@.subrange(i + 1, i + 1),
            ));
            start = i + 1;
        } else {
            assert(cur.push(cs@[i as int]) =~= s@.subrange(start as int, i + 1));
        }
        i = i + 1;
    }
    if start < len {
        let ghost before = views(out@);
        let last = substring(s, start, len);
        out.push(last);
        assert(views(out@) =~= before.push(last@));
    }
    assert(s@.subrange(len as int, len as int) =~= Seq::<char>::empty());
    out
}

/// The white-space separated words of `s` (`str::split_whitespace`).
pub fn words_of(s: &str) -> (r: Vec<String>)
    ensures
        views(r@) == words(s@),
{
    let cs = chars_of(s);
    let len = cs.len();
    let mut out: Vec<String> = Vec::new();
    let mut start: usize = 0;
    let mut i: usize = 0;
    assert(s@.subrange(0, len as int) =~= s@);
    assert(s@.subrange(0, 0) =~= Seq::<char>::empty());
    assert(views(out@) =~= Seq::<Seq<char>>::empty());
    while i < len
        invariant
            start <= i <= len == cs@.len(),
            cs@ == s@,
            words(s@) == views(out@) + words_from(
                s@.subrange(i as int, len as int),
                s@.subrange(start as int, i as int),
            ),
        decreases len - i,
    {
        let ghost rest = s@.subrange(i as int, len as int);
        let ghost cur = s@.subrange(start as int, i as int);
        assert(rest[0] == cs@[i as int]);
        assert(rest.drop_first() =~= s@.subrange(i + 1, len as int));
        if is_white_char(cs[i]) {
            assert(s@.subrange(i + 1, i + 1) =~= Seq::<char>::empty());
            if start < i {
                let word = substring(s, start, i);
                let ghost before = views(out@);
                out.push(word);
                assert(views(out@) =~= before.push(word@));
                assert(words(s@) =~= views(out@) + words_from(
                    s@.subrange(i + 1, len as int),
                    s@.subrange(i + 1, i + 1),
                ));
            }
            start = i + 1;
        } else {
            assert(cur.push(cs@[i as int]) =~= s@.subrange(start as int, i + 1));
        }
        i = i + 1;
    }
    if start < len {
        let ghost before = views(out@);
        let last = substring(s, start, len);
        out.push(last);
        assert(views(out@) =~= before.push(last@));
    }
    assert(s@.subrange(len as int, len as int) =~= Seq::<char>::empty());
    out
}

/// `parts` joined with `sep` between each two of them (`[..].join(sep)`).
pub fn join_strings(parts: &Vec<String>, sep: &str) -> (r: String)
    ensures
        r@ == join(views(parts@), sep@),
{
    let mut res = String::new();
    let n = parts.len();
    let mut i: usize = 0;
    assert(views(parts@).take(0) =~= Seq::<Seq<char>>::empty());
    while i < n
        invariant
            i <= n == parts@.len(),
            res@ == join(views(parts@).take(i as int), sep@),
        decreases n - i,
    {
        let ghost p = views(parts@);
        assert(p.take(i + 1).drop_last() =~= p.take(i as int));
        assert(p.take(i + 1).last() == parts@[i as int]@);
        if i > 0 {
            res.append(sep);
        } else {
            assert(p.take(1) =~= seq![parts@[0]@]);
        }
        res.append(parts[i].as_str());
        i = i + 1;
    }
    assert(views(parts@).take(n as int) =~= views(parts@));
    res
}

/// Whether `s` begins with `prefix` (`str::starts_with`).
pub fn starts_with_str(s: &str, prefix: &str) -> (b: bool)
    ensures
        b == starts_with(s@, prefix@),
{
    let cs = chars_of(s);
    let ps = chars_of(prefix);
    if ps.len() > cs.len() {
        return false;
    }
    let mut i: usize = 0;
    while i < ps.len()
        invariant
            i <= ps@.len() <= cs@.len(),
            cs@ == s@,
            ps@ == prefix@,
            forall|k: int| 0 <= k < i ==> cs@[k] == ps@[k],
        decreases ps.len() - i,
    {
        if cs[i] != ps[i] {
            assert(s@.subrange(0, prefix@.len() as int)[i as int] != prefix@[i as int]);
            return false;
        }
        i = i + 1;
    }
    assert(s@.subrange(0, prefix@.len() as int) =~= prefix@);
    true
}

/// What `str::parse` gives for an unsigned integer type whose largest value
/// is `max`.
pub fn parse_unsigned_str(s: &str, max: u32) -> (r: Option<u32>)
    ensures
        parse_unsigned(s@, max as nat) == (match r {
            Some(v) => Some(v as nat),
            None => None,
        }),
{
    let cs = chars_of(s);
    let len = cs.len();
    let k: usize = if len > 0 && cs[0] == '+' {
        1
    } else {
        0
    };
    let ghost d = unsigned_digits(s@);
    assert(d =~= s@.subrange(k as int, len as int));
    if k == len {
        return None;
    }
    let mut acc: u64 = 0;
    let mut over = false;
    let mut i: usize = k;
    assert(s@.subrange(k as int, k as int) =~= Seq::<char>::empty());
    while i < len
        invariant
            k <= i <= len == cs@.len(),
            cs@ == s@,
            d == s@.subrange(k as int, len as int),
            d == unsigned_digits(s@),
            all_digits(s@.subrange(k as int, i as int)),
            !over ==> acc == digits_value(s@.subrange(k as int, i as int)) && acc <= max,
            over ==> digits_value(s@.subrange(k as int, i as int)) > max,
        decreases len - i,
    {
        let c = cs[i];
        let code = c as u32;
        if !(48 <= code && code <= 57) {
            assert(d[i - k] == c);
            assert(!is_digit(d[i - k]));
            assert(!all_digits(d));
            return None;
        }
        let ghost prefix = s@.subrange(k as int, i as int);
        assert(prefix.push(c) =~= s@.subrange(k as int, i + 1));
        proof {
            lemma_digits_value_push(prefix, c);
        }
        if !over {
            let next = acc * 10 + (code - 48) as u64;
            if next > max as u64 {
                over = true;
            } else {
                acc = next;
            }
        }
        i = i + 1;
    }
    assert(s@.subrange(k as int, len as int) == d);
    if over {
        None
    } else {
        Some(acc as u32)
    }
}

/// The decimal digit `d` as a one-character string.
fn digit_str(d: u8) -> (r: &'static str)
    requires
        d < 10,
    ensures
        r@ == seq![digit_char(d as nat)],
{
    match d {
        0 => {
            proof {
                reveal_strlit("0");
            }
            "0"
        },
        1 => {
            proof {
                reveal_strlit("1");
            }
            "1"
        },
        2 => {
            proof {
                reveal_strlit("2");
            }
            "2"
        },
        3 => {
            proof {
                reveal_strlit("3");
            }
            "3"
        },
        4 => {
            proof {
                reveal_strlit("4");
            }
            "4"
        },
        5 => {
            proof {
                reveal_strlit("5");
            }
            "5"
        },
        6 => {
            proof {
                reveal_strlit("6");
            }
            "6"
        },
        7 => {
            proof {
                reveal_strlit("7");
            }
            "7"
        },
        8 => {
            proof {
                reveal_strlit("8");
            }
            "8"
        },
        _ => {
            proof {
                reveal_strlit("9");
            }
            "9"
        },
    }
}

/// The decimal notation of `n` (`n.to_string()`).
pub fn decimal_u8(n: u8) -> (r: String)
    ensures
        r@ == decimal(n as nat),
{
    let mut r = String::new();
    if n >= 100 {
        r.append(digit_str(n / 100));
    }
    if n >= 10 {
        r.append(digit_str((n / 10) % 10));
    }
    r.append(digit_str(n % 10));
    proof {
        let m = n as nat;
        if m >= 100 {
            assert(decimal(m / 100) == seq![digit_char(m / 100)]);
            assert(decimal(m / 10) == decimal(m / 100).push(digit_char((m / 10) % 10)));
            assert(decimal(m) == decimal(m / 10).push(digit_char(m % 10)));
        } else if m >= 10 {
            assert(decimal(m / 10) == seq![digit_char((m / 10) % 10)]);
            assert(decimal(m) == decimal(m / 10).push(digit_char(m % 10)));
        }
        assert(r@ =~= decimal(m));
    }
    r
}

/// Whether `a` and `b` hold the same characters.
pub fn str_equals(a: &str, b: &str) -> (r: bool)
    ensures
        r == (a@ == b@),
{
    let xs = chars_of(a);
    let ys = chars_of(b);
    if xs.len() != ys.len() {
        return false;
    }
    let mut i: usize = 0;
    while i < xs.len()
        invariant
            i <= xs@.len() == ys@.len(),
            xs@ == a@,
            ys@ == b@,
            forall|k: int| 0 <= k < i ==> xs@[k] == ys@[k],
        decreases xs.len() - i,
    {
        if xs[i] != ys[i] {
            return false;
        }
        i = i + 1;
    }
    assert(a@ =~= b@);
    true
}

/// The text `{:?}` formatting gives for the string `s` (quoted, with
/// escapes).
pub uninterp spec fn debug_quoted(s: Seq<char>) -> Seq<char>;

/// Formats `s` with `format!("{s:?}")`, that is with `str`'s `Debug`
/// implementation from std (quotes around it, escapes inside). The contract
/// claims only that the result depends on `s` alone; which text that is,
/// is left unsaid and named `debug_quoted`.
#[verifier::external_body]
pub(crate) fn debug_quote(s: &str) -> (r: String)
    ensures
        r@ == debug_quoted(s@),
{
    format!("{s:?}")
}

/// A part that is not all white space keeps its join from being all white
/// space.
pub proof fn lemma_join_keeps_part(parts: Seq<Seq<char>>, sep: Seq<char>, j: int)
    requires
        0 <= j < parts.len(),
        !all_white(parts[j]),
    ensures
        !all_white(join(parts, sep)),
    decreases parts.len(),
{
    let k = choose|k: int| 0 <= k < parts[j].len() && !is_white(#[trigger] parts[j][k]);
    if parts.len() == 1 {
        assert(join(parts, sep) == parts[0]);
        assert(!is_white(join(parts, sep)[k]));
    } else {
        let a = join(parts.drop_last(), sep);
        let l = parts.last();
        assert(join(parts, sep) == a + sep + l);
        if j == parts.len() - 1 {
            assert((a + sep + l)[a.len() + sep.len() + k] == l[k]);
            assert(!is_white((a + sep + l)[a.len() + sep.len() + k]));
        } else {
            assert(parts.drop_last()[j] == parts[j]);
            lemma_join_keeps_part(parts.drop_last(), sep, j);
            let m = choose|m: int| 0 <= m < a.len() && !is_white(#[trigger] a[m]);
            assert((a + sep + l)[m] == a[m]);
            assert(!is_white((a + sep + l)[m]));
        }
    }
}

} // verus!
