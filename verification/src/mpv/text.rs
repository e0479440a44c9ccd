//! JSON text.

use vstd::prelude::*;

verus! {

/// The decimal digit for a number below ten.
pub open spec fn digit(n: nat) -> char {
    (48 + n) as char
}

/// A number in decimal.
pub open spec fn digits(n: nat) -> Seq<char>
    decreases n,
{
    if n < 10 {
        seq![digit(n)]
    } else {
        digits(n / 10).push(digit(n % 10))
    }
}

/// A number in decimal, with a sign if it is negative.
pub open spec fn decimal(n: int) -> Seq<char> {
    if n < 0 {
        seq!['-'] + digits((-n) as nat)
    } else {
        digits(n as nat)
    }
}

/// The text of a decimal digit.
fn digit_text(n: u64) -> (r: &'static str)
    requires
        n < 10,
    ensures
        r@ == seq![digit(n as nat)],
{
    proof {
        reveal_strlit("0");
        reveal_strlit("1");
        reveal_strlit("2");
        reveal_strlit("3");
        reveal_strlit("4");
        reveal_strlit("5");
        reveal_strlit("6");
        reveal_strlit("7");
        reveal_strlit("8");
        reveal_strlit("9");
    }
    match n {
        0 => "0",
        1 => "1",
        2 => "2",
        3 => "3",
        4 => "4",
        5 => "5",
        6 => "6",
        7 => "7",
        8 => "8",
        _ => "9",
    }
}

/// Appends a number in decimal to `text`.
fn push_digits(text: &mut String, n: u64)
    ensures
        final(text)@ == old(text)@ + digits(n as nat),
    decreases n,
{
    if n >= 10 {
        push_digits(text, n / 10);
    }
    text.append(digit_text(n % 10));
    assert(text@ =~= old(text)@ + digits(n as nat));
}

/// Appends a number in decimal to `text`, with a sign if it is negative.
pub fn push_decimal(text: &mut String, n: i64)
    ensures
        final(text)@ == old(text)@ + decimal(n as int),
{
    if n < 0 {
        proof {
            reveal_strlit("-");
        }
        text.append("-");
        let size: i128 = -(n as i128);
        push_digits(text, size as u64);
        assert(text@ =~= old(text)@ + decimal(n as int));
    } else {
        push_digits(text, n as u64);
    }
}

/// A lower-case hexadecimal digit for a number below sixteen.
pub open spec fn hex_digit(n: nat) -> char {
    if n < 10 {
        (48 + n) as char
    } else {
        (87 + n) as char
    }
}

/// What stands for a character inside a JSON string: quotation marks, backslashes
/// and control characters are escaped, and every other character is itself.
pub open spec fn escaped(c: char) -> Seq<char> {
    if c == '"' {
        seq!['\\', '"']
    } else if c == '\\' {
        seq!['\\', '\\']
    } else if c == '\u{8}' {
        seq!['\\', 'b']
    } else if c == '\t' {
        seq!['\\', 't']
    } else if c == '\n' {
        seq!['\\', 'n']
    } else if c == '\u{c}' {
        seq!['\\', 'f']
    } else if c == '\r' {
        seq!['\\', 'r']
    } else if (c as nat) < 32 {
        seq!['\\', 'u', '0', '0', hex_digit(c as nat / 16), hex_digit(c as nat % 16)]
    } else {
        seq![c]
    }
}

/// The characters of a JSON string that stand for `text`.
pub open spec fn escaped_text(text: Seq<char>) -> Seq<char>
    decreases text.len(),
{
    if text.len() == 0 {
        Seq::empty()
    } else {
        escaped_text(text.drop_last()) + escaped(text.last())
    }
}

/// `text` as a JSON string, in quotation marks.
pub open spec fn quoted(text: Seq<char>) -> Seq<char> {
    seq!['"'] + escaped_text(text) + seq!['"']
}

/// `serde_json::to_string` on a string: the string in quotation marks, with
/// quotation marks, backslashes and control characters escaped. It fails on no
/// string.
#[verifier::external_body]
pub(crate) fn json_quote(text: &str) -> (r: String)
    ensures
        r@ == quoted(text@),
{
    match serde_json::to_string(text) {
        Ok(json) => json,
        Err(_) => String::new(),
    }
}

/// Whether a text is a single line: it holds no line feed.
pub open spec fn one_line(text: Seq<char>) -> bool {
    !text.contains('\n')
}

/// Two texts without a line feed are one without when put together.
pub proof fn lemma_one_line_concat(a: Seq<char>, b: Seq<char>)
    requires
        one_line(a),
        one_line(b),
    ensures
        one_line(a + b),
{
    assert forall|i: int| 0 <= i < (a + b).len() implies (a + b)[i] != '\n' by {
        if i < a.len() {
            assert(a.contains(a[i]));
        } else {
            assert(b.contains(b[i - a.len()]));
        }
    }
}

/// The escapes of a JSON string hold no line feed, whatever they stand for.
pub proof fn lemma_escaped_one_line(text: Seq<char>)
    ensures
        one_line(escaped_text(text)),
    decreases text.len(),
{
    if text.len() > 0 {
        lemma_escaped_one_line(text.drop_last());
        lemma_one_line_concat(escaped_text(text.drop_last()), escaped(text.last()));
    }
}

/// A JSON string is a single line, whatever it stands for.
pub proof fn law_quoted_is_one_line(text: Seq<char>)
    ensures
        one_line(quoted(text)),
{
    lemma_escaped_one_line(text);
    lemma_one_line_concat(seq!['"'], escaped_text(text));
    lemma_one_line_concat(seq!['"'] + escaped_text(text), seq!['"']);
}

/// A number in decimal is a single line.
pub proof fn lemma_decimal_one_line(n: int)
    ensures
        one_line(decimal(n)),
{
    if n < 0 {
        lemma_digits_one_line((-n) as nat);
        lemma_one_line_concat(seq!['-'], digits((-n) as nat));
    } else {
        lemma_digits_one_line(n as nat);
    }
}

proof fn lemma_digits_one_line(n: nat)
    ensures
        one_line(digits(n)),
    decreases n,
{
    if n >= 10 {
        lemma_digits_one_line(n / 10);
        lemma_one_line_concat(digits(n / 10), seq![digit(n % 10)]);
        assert(digits(n / 10) + seq![digit(n % 10)] =~= digits(n));
    }
}

/// A digit is told from every other character, and from other digits.
proof fn lemma_digit(n: nat)
    requires
        n < 10,
    ensures
        '0' <= digit(n) <= '9',
        digit(n) as nat == 48 + n,
{
}

/// Every character of a number in decimal is a digit, and there is one at least.
proof fn lemma_digits_are_digits(n: nat)
    ensures
        digits(n).len() > 0,
        forall|i: int| 0 <= i < digits(n).len() ==> '0' <= #[trigger] digits(n)[i] <= '9',
    decreases n,
{
    if n < 10 {
        lemma_digit(n);
    } else {
        lemma_digits_are_digits(n / 10);
        lemma_digit(n % 10);
    }
}

/// Different numbers have different digits.
proof fn lemma_digits_injective(n: nat, m: nat)
    requires
        digits(n) == digits(m),
    ensures
        n == m,
    decreases n,
{
    lemma_digits_are_digits(n / 10);
    lemma_digits_are_digits(m / 10);
    lemma_digit(n % 10);
    lemma_digit(m % 10);
    assert(digits(n).last() == digit(n % 10));
    assert(digits(m).last() == digit(m % 10));
    if n >= 10 && m >= 10 {
        assert(digits(n).drop_last() =~= digits(n / 10));
        assert(digits(m).drop_last() =~= digits(m / 10));
        lemma_digits_injective(n / 10, m / 10);
    }
}

/// Every character of a number in decimal is a digit or a sign, and there is one at
/// least.
pub proof fn lemma_decimal_characters(n: int)
    ensures
        decimal(n).len() > 0,
        forall|i: int|
            0 <= i < decimal(n).len() ==> ('0' <= #[trigger] decimal(n)[i] <= '9' || decimal(n)[i]
                == '-'),
{
    if n < 0 {
        lemma_digits_are_digits((-n) as nat);
    } else {
        lemma_digits_are_digits(n as nat);
    }
}

/// Different numbers look different in decimal.
pub proof fn lemma_decimal_injective(n: int, m: int)
    requires
        decimal(n) == decimal(m),
    ensures
        n == m,
{
    if n < 0 {
        lemma_digits_are_digits((-n) as nat);
        assert(decimal(n)[0] == '-');
        assert(decimal(n).skip(1) =~= digits((-n) as nat));
    } else {
        lemma_digits_are_digits(n as nat);
        assert('0' <= decimal(n)[0]);
    }
    if m < 0 {
        lemma_digits_are_digits((-m) as nat);
        assert(decimal(m)[0] == '-');
        assert(decimal(m).skip(1) =~= digits((-m) as nat));
    } else {
        lemma_digits_are_digits(m as nat);
        assert('0' <= decimal(m)[0]);
    }
    if n < 0 {
        lemma_digits_injective((-n) as nat, (-m) as nat);
    } else {
        lemma_digits_injective(n as nat, m as nat);
    }
}

/// A number at the end of a text, after a character that is no part of a number, can be
/// told from what stands before it.
pub proof fn lemma_number_at_end(a: Seq<char>, n: int, b: Seq<char>, m: int)
    requires
        a + decimal(n) == b + decimal(m),
        a.len() > 0 && a.last() == ':',
        b.len() > 0 && b.last() == ':',
    ensures
        a == b,
        n == m,
{
    lemma_decimal_characters(n);
    lemma_decimal_characters(m);
    let whole = a + decimal(n);
    assert(whole.len() == a.len() + decimal(n).len());
    assert((b + decimal(m)).len() == b.len() + decimal(m).len());
    if a.len() < b.len() {
        assert(whole[b.len() - 1] == decimal(n)[b.len() - 1 - a.len()]);
        assert((b + decimal(m))[b.len() - 1] == ':');
    }
    if b.len() < a.len() {
        assert((b + decimal(m))[a.len() - 1] == decimal(m)[a.len() - 1 - b.len()]);
        assert(whole[a.len() - 1] == ':');
    }
    assert(a =~= whole.take(a.len() as int));
    assert(b =~= (b + decimal(m)).take(b.len() as int));
    assert(decimal(n) =~= whole.skip(a.len() as int));
    assert(decimal(m) =~= (b + decimal(m)).skip(b.len() as int));
    lemma_decimal_injective(n, m);
}

/// A number at the front of a text, before a comma, can be told from what stands after
/// it.
pub proof fn lemma_number_at_front(n: int, a: Seq<char>, m: int, b: Seq<char>)
    requires
        decimal(n) + seq![','] + a == decimal(m) + seq![','] + b,
    ensures
        n == m,
        a == b,
{
    lemma_decimal_characters(n);
    lemma_decimal_characters(m);
    let (x, y) = (decimal(n), decimal(m));
    let (p, q) = (x + seq![','] + a, y + seq![','] + b);
    if x.len() < y.len() {
        assert(p[x.len() as int] == ',');
        assert(q[x.len() as int] == y[x.len() as int]);
    }
    if y.len() < x.len() {
        assert(q[y.len() as int] == ',');
        assert(p[y.len() as int] == x[y.len() as int]);
    }
    assert(x =~= p.take(x.len() as int));
    assert(y =~= q.take(y.len() as int));
    assert(a =~= p.skip(x.len() as int + 1));
    assert(b =~= q.skip(y.len() as int + 1));
    lemma_decimal_injective(n, m);
}

/// What stands for the characters of a text begins with what stands for the first.
proof fn lemma_escaped_from_front(text: Seq<char>)
    requires
        text.len() > 0,
    ensures
        escaped_text(text) == escaped(text[0]) + escaped_text(text.drop_first()),
    decreases text.len(),
{
    let start = text.drop_last();
    if start.len() == 0 {
        assert(escaped_text(start) =~= Seq::empty());
        assert(escaped_text(text.drop_first()) =~= Seq::empty());
        assert(escaped_text(text) =~= escaped(text[0]) + escaped_text(text.drop_first()));
    } else {
        lemma_escaped_from_front(start);
        let rest = text.drop_first();
        assert(rest.drop_last() =~= start.drop_first());
        assert(escaped_text(text) =~= escaped(text[0]) + escaped_text(rest));
    }
}

/// What stands for a character does not begin with a quotation mark, and can be told
/// from what stands after it and from what stands for any other.
proof fn lemma_escaped_first(c: char, a: Seq<char>, d: char, b: Seq<char>)
    requires
        escaped(c) + a == escaped(d) + b,
    ensures
        c == d,
        a == b,
{
    let (p, q) = (escaped(c) + a, escaped(d) + b);
    assert(p[0] == escaped(c)[0] && q[0] == escaped(d)[0]);
    if escaped(c).len() > 1 && escaped(d).len() > 1 {
        assert(p[1] == escaped(c)[1] && q[1] == escaped(d)[1]);
        if escaped(c).len() == 6 && escaped(d).len() == 6 {
            assert(p[4] == escaped(c)[4] && q[4] == escaped(d)[4]);
            assert(p[5] == escaped(c)[5] && q[5] == escaped(d)[5]);
            lemma_hex_digit_injective(c as nat / 16, d as nat / 16);
            lemma_hex_digit_injective(c as nat % 16, d as nat % 16);
        }
    }
    assert(c == d);
    assert(a =~= p.skip(escaped(c).len() as int));
    assert(b =~= q.skip(escaped(d).len() as int));
}

/// Different numbers have different hexadecimal digits.
proof fn lemma_hex_digit_injective(n: nat, m: nat)
    requires
        n < 16,
        m < 16,
        hex_digit(n) == hex_digit(m),
    ensures
        n == m,
{
    assert(hex_digit(n) as nat == if n < 10 { 48 + n } else { 87 + n });
    assert(hex_digit(m) as nat == if m < 10 { 48 + m } else { 87 + m });
}

/// The characters of a JSON string, up to the quotation mark, can be told from what
/// stands after it, and from those of any other.
proof fn lemma_escaped_to_quote(s: Seq<char>, a: Seq<char>, t: Seq<char>, b: Seq<char>)
    requires
        escaped_text(s) + seq!['"'] + a == escaped_text(t) + seq!['"'] + b,
    ensures
        s == t,
        a == b,
    decreases s.len(),
{
    let (p, q) = (escaped_text(s) + seq!['"'] + a, escaped_text(t) + seq!['"'] + b);
    if s.len() > 0 {
        lemma_escaped_from_front(s);
        assert(p[0] == escaped(s[0])[0]);
    } else {
        assert(p[0] == '"');
    }
    if t.len() > 0 {
        lemma_escaped_from_front(t);
        assert(q[0] == escaped(t[0])[0]);
    } else {
        assert(q[0] == '"');
    }
    if s.len() == 0 {
        assert(s =~= t);
        assert(a =~= p.skip(1));
        assert(b =~= q.skip(1));
    } else {
        let (s_rest, t_rest) = (s.drop_first(), t.drop_first());
        let x = escaped_text(s_rest) + seq!['"'] + a;
        let y = escaped_text(t_rest) + seq!['"'] + b;
        assert(p =~= escaped(s[0]) + x);
        assert(q =~= escaped(t[0]) + y);
        lemma_escaped_first(s[0], x, t[0], y);
        lemma_escaped_to_quote(s_rest, a, t_rest, b);
        assert(s =~= seq![s[0]] + s_rest);
        assert(t =~= seq![t[0]] + t_rest);
    }
}

/// A JSON string at the front of a text can be told from what stands after it, and from
/// any other.
pub proof fn lemma_string_at_front(s: Seq<char>, a: Seq<char>, t: Seq<char>, b: Seq<char>)
    requires
        quoted(s) + a == quoted(t) + b,
    ensures
        s == t,
        a == b,
{
    let x = escaped_text(s) + seq!['"'] + a;
    let y = escaped_text(t) + seq!['"'] + b;
    assert(x =~= (quoted(s) + a).skip(1));
    assert(y =~= (quoted(t) + b).skip(1));
    lemma_escaped_to_quote(s, a, t, b);
}

/// A number in decimal is written by position: a digit more multiplies it by ten and adds
/// the digit, which is the character that many after `0`. A negative number is its
/// opposite with a sign before it.
pub proof fn law_decimal_is_by_position(n: nat, d: nat, text: Seq<char>)
    requires
        d < 10,
        text == decimal((10 * n + d) as int),
    ensures
        text.last() as nat == '0' as nat + d,
        n == 0 ==> text.len() == 1,
        n > 0 ==> text.drop_last() == decimal(n as int),
        10 * n + d > 0 ==> decimal(-(10 * n + d)) == seq!['-'] + text,
{
    lemma_digit(d);
    let m = (10 * n + d) as nat;
    assert(m / 10 == n && m % 10 == d);
    if n > 0 {
        assert(digits(m).drop_last() =~= digits(n));
    }
}

/// A number is appended in decimal to what is there.
pub proof fn law_number_is_appended(text: &mut String, n: i64)
    requires
        call_ensures(push_decimal, (text, n), ()),
    ensures
        final(text)@.len() == old(text)@.len() + decimal(n as int).len(),
        old(text)@.is_prefix_of(final(text)@),
        final(text)@.skip(old(text)@.len() as int) == decimal(n as int),
{
    assert(final(text)@.take(old(text)@.len() as int) =~= old(text)@);
    assert(final(text)@.skip(old(text)@.len() as int) =~= decimal(n as int));
}

/// A text without quotation marks, backslashes and control characters is itself between
/// quotation marks; and different texts are different in quotation marks, whatever they
/// hold and whatever follows them.
pub proof fn law_quoted(plain: Seq<char>, s: Seq<char>, a: Seq<char>, t: Seq<char>, b: Seq<char>)
    requires
        forall|i: int|
            0 <= i < plain.len() ==> #[trigger] plain[i] >= ' ' && plain[i] != '"' && plain[i]
                != '\\',
    ensures
        quoted(plain) == seq!['"'] + plain + seq!['"'],
        quoted(s) + a == quoted(t) + b ==> s == t && a == b,
    decreases plain.len(),
{
    if plain.len() > 0 {
        let start = plain.drop_last();
        assert forall|i: int| 0 <= i < start.len() implies #[trigger] start[i] >= ' ' && start[i]
            != '"' && start[i] != '\\' by {
            assert(start[i] == plain[i]);
        }
        law_quoted(start, s, a, t, b);
        assert(escaped_text(start) =~= quoted(start).subrange(1, quoted(start).len() - 1));
        assert(start =~= (seq!['"'] + start + seq!['"']).subrange(1, start.len() as int + 1));
        assert(plain[plain.len() - 1] == plain.last());
        assert(escaped(plain.last()) =~= seq![plain.last()]);
        assert(escaped_text(plain) =~= plain);
    } else {
        assert(escaped_text(plain) =~= plain);
    }
    if quoted(s) + a == quoted(t) + b {
        lemma_string_at_front(s, a, t, b);
    }
}

} // verus!
