//! Character-level helpers shared by the script builders: quoting values for
//! single-quoted JavaScript literals, infix search and decimal rendering.
use vstd::prelude::*;
use vstd::string::*;

verus! {

/// What one character becomes inside a single-quoted JavaScript literal.
pub open spec fn quote_escape_char(c: char) -> Seq<char> {
    if c == '\'' {
        seq!['\\', '\'']
    } else {
        seq![c]
    }
}

/// The text with every single quote preceded by a backslash; nothing else changes.
pub open spec fn escape_quotes(s: Seq<char>) -> Seq<char>
    decreases s.len(),
{
    if s.len() == 0 {
        Seq::empty()
    } else {
        escape_quotes(s.drop_last()) + quote_escape_char(s.last())
    }
}

/// Reads a text made by `escape_quotes` back: a trailing backslash-quote
/// pair stands for one quote. This undoes `escape_quotes` only; it is not how
/// JavaScript reads a string literal.
pub open spec fn unescape_quotes(t: Seq<char>) -> Seq<char>
    decreases t.len(),
{
    if t.len() == 0 {
        Seq::empty()
    } else if t.len() >= 2 && t.last() == '\'' && t[t.len() - 2] == '\\' {
        unescape_quotes(t.subrange(0, t.len() - 2)).push('\'')
    } else {
        unescape_quotes(t.drop_last()).push(t.last())
    }
}

/// How many single quotes a text holds.
pub open spec fn quote_count(s: Seq<char>) -> nat
    decreases s.len(),
{
    if s.len() == 0 {
        0
    } else {
        quote_count(s.drop_last()) + if s.last() == '\'' {
            1nat
        } else {
            0nat
        }
    }
}

/// `p` occurs in `s` as a contiguous run.
pub open spec fn has_infix(s: Seq<char>, p: Seq<char>) -> bool {
    exists|i: int| 0 <= i && i + p.len() <= s.len() && #[trigger] s.subrange(i, i + p.len()) == p
}

/// The decimal digit for `d < 10`.
pub open spec fn digit_char(d: nat) -> char {
    if d == 0 {
        '0'
    } else if d == 1 {
        '1'
    } else if d == 2 {
        '2'
    } else if d == 3 {
        '3'
    } else if d == 4 {
        '4'
    } else if d == 5 {
        '5'
    } else if d == 6 {
        '6'
    } else if d == 7 {
        '7'
    } else if d == 8 {
        '8'
    } else {
        '9'
    }
}

/// Decimal rendering of a natural number, without leading zeros.
pub open spec fn decimal(n: nat) -> Seq<char>
    decreases n,
{
    if n < 10 {
        seq![digit_char(n)]
    } else {
        decimal(n / 10).push(digit_char(n % 10))
    }
}

/// Decimal rendering padded with zeros to at least two characters.
pub open spec fn two_digits(n: nat) -> Seq<char> {
    if n < 10 {
        seq!['0'] + decimal(n)
    } else {
        decimal(n)
    }
}

/// Texts joined in order with `sep` between neighbours.
pub open spec fn join_with(parts: Seq<Seq<char>>, sep: Seq<char>) -> Seq<char>
    decreases parts.len(),
{
    if parts.len() == 0 {
        Seq::empty()
    } else if parts.len() == 1 {
        parts[0]
    } else {
        join_with(parts.drop_last(), sep) + sep + parts.last()
    }
}

/// Appends one character (`String::push`).
#[verifier::external_body]
pub(crate) fn push_char(s: &mut String, c: char)
    ensures
        final(s)@ == old(s)@.push(c),
{
    s.push(c);
}

/// The characters of a text, one per element.
pub fn chars_of(s: &str) -> (v: Vec<char>)
    ensures
        v@ == s@,
{
    let mut v: Vec<char> = Vec::new();
    for c in it: s.chars()
        invariant
            v@ == it.seq().take(it.index() as int),
            it.seq() == s@,
    {
        v.push(c);
    }
    v
}

/// A copy of `s` with every single quote written as backslash-quote, ready to
/// stand between single quotes in a script.
pub fn escape_single_quotes(s: &str) -> (r: String)
    ensures
        r@ == escape_quotes(s@),
{
    let cs = chars_of(s);
    let mut r = String::new();
    let n: usize = cs.len();
    for i in 0..n
        invariant
            n == cs@.len(),
            cs@ == s@,
            r@ == escape_quotes(cs@.take(i as int)),
    {
        let c: char = cs[i];
        assert(cs@.take(i + 1).drop_last() == cs@.take(i as int));
        if c == '\'' {
            push_char(&mut r, '\\');
            push_char(&mut r, '\'');
        } else {
            push_char(&mut r, c);
        }
    }
    assert(cs@.take(n as int) == cs@);
    r
}

/// Whether `p` occurs in `s` (`str::contains` with a text pattern).
pub fn contains_text(s: &str, p: &str) -> (r: bool)
    ensures
        r == has_infix(s@, p@),
{
    let sv = chars_of(s);
    let pv = chars_of(p);
    let n: usize = sv.len();
    let m: usize = pv.len();
    if m > n {
        assert forall|i: int| 0 <= i && i + m <= n implies #[trigger] sv@.subrange(i, i + m) != pv@ by {}
        return false;
    }
    let mut i: usize = 0;
    while i <= n - m
        invariant
            m <= n,
            n == sv@.len(),
            m == pv@.len(),
            sv@ == s@,
            pv@ == p@,
            i <= n - m + 1,
            forall|k: int| 0 <= k < i ==> #[trigger] sv@.subrange(k, k + m) != pv@,
        decreases n - m + 1 - i,
    {
        let mut j: usize = 0;
        let mut same = true;
        while j < m
            invariant
                m <= n,
                i + m <= n,
                n == sv@.len(),
                m == pv@.len(),
                j <= m,
                same == (forall|t: int| 0 <= t < j ==> sv@[i + t] == pv@[t]),
            decreases m - j,
        {
            if sv[i + j] != pv[j] {
                same = false;
            }
            j += 1;
        }
        if same {
            assert(sv@.subrange(i as int, i + m) =~= pv@);
            return true;
        }
        assert(sv@.subrange(i as int, i + m) != pv@) by {
            let t: int = choose|t: int| 0 <= t < m && sv@[i + t] != pv@[t];
            assert(sv@.subrange(i as int, i + m)[t] == sv@[i + t]);
        }
        i += 1;
    }
    false
}

/// Whether `c` occurs in `s` (`str::contains` with a character pattern).
pub fn contains_char(s: &str, c: char) -> (r: bool)
    ensures
        r == s@.contains(c),
{
    let cs = chars_of(s);
    let n: usize = cs.len();
    for i in 0..n
        invariant
            n == cs@.len(),
            cs@ == s@,
            forall|k: int| 0 <= k < i ==> cs@[k] != c,
    {
        if cs[i] == c {
            assert(cs@[i as int] == c);
            return true;
        }
    }
    false
}

/// Whether two texts are equal.
pub fn same_text(a: &str, b: &str) -> (r: bool)
    ensures
        r == (a@ == b@),
{
    String::from_str(a) == String::from_str(b)
}

fn digit(d: u64) -> (c: char)
    requires
        d < 10,
    ensures
        c == digit_char(d as nat),
{
    if d == 0 {
        '0'
    } else if d == 1 {
        '1'
    } else if d == 2 {
        '2'
    } else if d == 3 {
        '3'
    } else if d == 4 {
        '4'
    } else if d == 5 {
        '5'
    } else if d == 6 {
        '6'
    } else if d == 7 {
        '7'
    } else if d == 8 {
        '8'
    } else {
        '9'
    }
}

/// The decimal text of `n` (what `{}` prints for an unsigned integer).
pub fn decimal_text(n: u64) -> (r: String)
    ensures
        r@ == decimal(n as nat),
    decreases n,
{
    if n < 10 {
        let mut r = String::new();
        push_char(&mut r, digit(n));
        assert(r@ =~= seq![digit_char(n as nat)]);
        r
    } else {
        let mut r = decimal_text(n / 10);
        push_char(&mut r, digit(n % 10));
        r
    }
}

/// The decimal text of `n` padded with zeros to two characters (`{:02}`).
pub fn two_digit_text(n: u64) -> (r: String)
    ensures
        r@ == two_digits(n as nat),
{
    if n < 10 {
        let mut r = String::new();
        push_char(&mut r, '0');
        let d = decimal_text(n);
        r.append(d.as_str());
        assert(r@ =~= seq!['0'] + decimal(n as nat));
        r
    } else {
        decimal_text(n)
    }
}

/// Every single quote in an escaped text directly follows a backslash.
/// Backslashes themselves are left as they are, so a value that contains a
/// backslash can still change how the surrounding literal reads.
pub proof fn lemma_escaped_quotes_follow_backslash(s: Seq<char>)
    ensures
        forall|i: int|
            0 <= i < escape_quotes(s).len() && #[trigger] escape_quotes(s)[i] == '\'' ==> i > 0
                && escape_quotes(s)[i - 1] == '\\',
    decreases s.len(),
{
    if s.len() > 0 {
        lemma_escaped_quotes_follow_backslash(s.drop_last());
        let pre = escape_quotes(s.drop_last());
        let tail = quote_escape_char(s.last());
        assert(escape_quotes(s) == pre + tail);
        assert forall|i: int|
            0 <= i < escape_quotes(s).len() && #[trigger] escape_quotes(s)[i] == '\'' implies i > 0
                && escape_quotes(s)[i - 1] == '\\' by {
            if i < pre.len() {
                assert(pre[i] == '\'');
            } else if i == pre.len() + 1 {
            } else {
                assert(escape_quotes(s)[i] == tail[i - pre.len()]);
            }
        }
    }
}

/// `unescape_quotes` undoes `escape_quotes`: escaping keeps every character
/// of the value and which of them were quotes.
pub proof fn lemma_unescape_escape(s: Seq<char>)
    ensures
        unescape_quotes(escape_quotes(s)) == s,
    decreases s.len(),
{
    if s.len() > 0 {
        lemma_unescape_escape(s.drop_last());
        let pre = escape_quotes(s.drop_last());
        let t = escape_quotes(s);
        if s.last() == '\'' {
            assert(t == pre + seq!['\\', '\'']);
            assert(t.subrange(0, t.len() - 2) =~= pre);
            assert(s =~= s.drop_last().push('\''));
        } else {
            assert(t == pre + seq![s.last()]);
            assert(t.drop_last() =~= pre);
            assert(s =~= s.drop_last().push(s.last()));
        }
    }
}

/// Escaping lengthens a text by one character per single quote in it.
pub proof fn lemma_escape_len(s: Seq<char>)
    ensures
        escape_quotes(s).len() == s.len() + quote_count(s),
    decreases s.len(),
{
    if s.len() > 0 {
        lemma_escape_len(s.drop_last());
    }
}

/// Distinct values stay distinct once escaped.
pub proof fn lemma_escape_injective(a: Seq<char>, b: Seq<char>)
    requires
        escape_quotes(a) == escape_quotes(b),
    ensures
        a == b,
{
    lemma_unescape_escape(a);
    lemma_unescape_escape(b);
}


/// The number a decimal digit character stands for.
pub open spec fn digit_value(c: char) -> int {
    (c as int) - ('0' as int)
}

/// The number a text of decimal digits stands for, most significant first.
pub open spec fn decimal_value(s: Seq<char>) -> int
    decreases s.len(),
{
    if s.len() == 0 {
        0
    } else {
        decimal_value(s.drop_last()) * 10 + digit_value(s.last())
    }
}

/// Every character is one of `0` to `9`.
pub open spec fn all_digits(s: Seq<char>) -> bool {
    forall|i: int| 0 <= i < s.len() ==> 0 <= #[trigger] digit_value(s[i]) <= 9
}

/// How many decimal digits `n` has (at least one).
pub open spec fn digit_count(n: nat) -> nat
    decreases n,
{
    if n < 10 {
        1
    } else {
        1 + digit_count(n / 10)
    }
}

proof fn lemma_digit_char_value(d: nat)
    requires
        d < 10,
    ensures
        digit_value(digit_char(d)) == d,
{
}

/// The decimal text of `n` is made of digits, reads back as `n`, has
/// `digit_count(n)` characters and starts with `0` only for zero itself.
pub proof fn lemma_decimal_reads_back(n: nat)
    ensures
        all_digits(decimal(n)),
        decimal_value(decimal(n)) == n,
        decimal(n).len() == digit_count(n),
        decimal(n)[0] == '0' <==> n == 0,
    decreases n,
{
    if n < 10 {
        lemma_digit_char_value(n);
        assert(decimal(n).drop_last() =~= Seq::<char>::empty());
        assert(decimal_value(Seq::<char>::empty()) == 0);
    } else {
        lemma_decimal_reads_back(n / 10);
        lemma_digit_char_value(n % 10);
        let d = decimal(n);
        assert(d.drop_last() =~= decimal(n / 10));
        assert(d.last() == digit_char(n % 10));
        assert(decimal_value(d) == decimal_value(decimal(n / 10)) * 10 + digit_value(d.last()));
        assert((n / 10) * 10 + n % 10 == n);
        assert forall|i: int| 0 <= i < d.len() implies 0 <= #[trigger] digit_value(d[i]) <= 9 by {
            if i < d.len() - 1 {
                assert(d[i] == decimal(n / 10)[i]);
            }
        }
        assert(d[0] == decimal(n / 10)[0]);
    }
}

/// The `{:02}` rendering: numbers from 10 on are written as they are; the
/// one-digit ones get a single leading zero. Either way the text reads back as
/// `n` and is two characters long or as long as `n`'s digits, whichever is more.
pub proof fn lemma_two_digits_pads_only_small(n: nat)
    ensures
        n >= 10 ==> two_digits(n) == decimal(n),
        n < 10 ==> two_digits(n) == seq!['0', digit_char(n)],
        two_digits(n).len() == if digit_count(n) < 2 {
            2
        } else {
            digit_count(n)
        },
        all_digits(two_digits(n)),
        decimal_value(two_digits(n)) == n,
{
    lemma_decimal_reads_back(n);
    if n < 10 {
        lemma_digit_char_value(n);
        let t = two_digits(n);
        assert(t =~= seq!['0', digit_char(n)]);
        assert(t.drop_last() =~= seq!['0']);
        assert(seq!['0'].drop_last() =~= Seq::<char>::empty());
        assert(decimal_value(Seq::<char>::empty()) == 0);
        assert(digit_value('0') == 0);
        assert(decimal_value(seq!['0']) == 0);
        assert forall|i: int| 0 <= i < t.len() implies 0 <= #[trigger] digit_value(t[i]) <= 9 by {}
    } else {
        assert(digit_count(n / 10) >= 1);
        assert(digit_count(n) >= 2);
    }
}

} // verus!
