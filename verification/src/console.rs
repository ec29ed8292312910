//! What the monitor writes to and reads from its console: integers in
//! decimal, the line that reports a value the guest wrote, and the reading of
//! an integer from a line of input.

use vstd::prelude::*;
use vstd::string::*;

verus! {

/// The character of a decimal digit.
pub open spec fn digit_char(d: int) -> char {
    if d == 0 {
        '0'
    } else if d == 1 {
        '1'
    } else if d == 2 {
        '2'
    } else if d == 3 {
        '3'
    } else if d == 4 {
        '4'
    } else if d == 5 {
        '5'
    } else if d == 6 {
        '6'
    } else if d == 7 {
        '7'
    } else if d == 8 {
        '8'
    } else {
        '9'
    }
}

/// The decimal digits of a natural number, without leading zeros.
pub open spec fn decimal_digits(n: nat) -> Seq<char>
    decreases n,
{
    if n < 10 {
        seq![digit_char(n as int)]
    } else {
        decimal_digits(n / 10).push(digit_char((n % 10) as int))
    }
}

/// An integer in decimal, with a minus sign in front where it is negative.
pub open spec fn decimal(v: int) -> Seq<char> {
    if v < 0 {
        seq!['-'] + decimal_digits((-v) as nat)
    } else {
        decimal_digits(v as nat)
    }
}

/// The line that reports a value the guest wrote to a port.
pub open spec fn report_text(port: u16, value: i32) -> Seq<char> {
    "port["@ + decimal(port as int) + "]: "@ + decimal(value as int) + "\n"@
}

/// The line that tells the version of the kernel's interface.
pub open spec fn version_text(version: i32) -> Seq<char> {
    "KVM API version: "@ + decimal(version as int) + "\n"@
}

/// Whether a character is white space as Unicode defines it.
pub open spec fn is_whitespace(c: char) -> bool {
    let n = c as u32;
    ||| 0x09 <= n <= 0x0D
    ||| n == 0x20
    ||| n == 0x85
    ||| n == 0xA0
    ||| n == 0x1680
    ||| 0x2000 <= n <= 0x200A
    ||| n == 0x2028
    ||| n == 0x2029
    ||| n == 0x202F
    ||| n == 0x205F
    ||| n == 0x3000
}

/// The text without the white space it begins with.
pub open spec fn trim_start(s: Seq<char>) -> Seq<char>
    decreases s.len(),
{
    if s.len() > 0 && is_whitespace(s[0]) {
        trim_start(s.drop_first())
    } else {
        s
    }
}

/// The text without the white space it ends with.
pub open spec fn trim_end(s: Seq<char>) -> Seq<char>
    decreases s.len(),
{
    if s.len() > 0 && is_whitespace(s.last()) {
        trim_end(s.drop_last())
    } else {
        s
    }
}

/// The text without the white space around it.
pub open spec fn trimmed(s: Seq<char>) -> Seq<char> {
    trim_end(trim_start(s))
}

/// Whether a character is one of the digits `0` to `9`.
pub open spec fn is_digit(c: char) -> bool {
    '0' <= c <= '9'
}

/// Whether a text holds decimal digits only.
pub open spec fn all_digits(s: Seq<char>) -> bool {
    forall|i: int| 0 <= i < s.len() ==> is_digit(#[trigger] s[i])
}

/// The number that a text of decimal digits stands for.
pub open spec fn digits_value(s: Seq<char>) -> int
    decreases s.len(),
{
    if s.len() == 0 {
        0
    } else {
        10 * digits_value(s.drop_last()) + (s.last() as int - '0' as int)
    }
}

/// The integer that a text stands for: an optional sign, `+` or `-`, then
/// one or more decimal digits, and a value that a signed 32-bit integer
/// holds. Any other text stands for none.
pub open spec fn parsed(t: Seq<char>) -> Option<i32> {
    if t.len() == 0 {
        None
    } else {
        let signed = t[0] == '-' || t[0] == '+';
        let digits = if signed {
            t.drop_first()
        } else {
            t
        };
        let value = if t[0] == '-' {
            -digits_value(digits)
        } else {
            digits_value(digits)
        };
        if digits.len() > 0 && all_digits(digits) && i32::MIN <= value <= i32::MAX {
            Some(value as i32)
        } else {
            None
        }
    }
}

/// The integer that a line of input stands for, white space around it set
/// aside.
pub open spec fn parsed_line(line: Seq<char>) -> Option<i32> {
    parsed(trimmed(line))
}

fn digit_text(d: u8) -> (t: &'static str)
    requires
        d < 10,
    ensures
        t@ == seq![digit_char(d as int)],
{
    proof {
        reveal_strlit("0");
        reveal_strlit("1");
        reveal_strlit("2");
        reveal_strlit("3");
        reveal_strlit("4");
        reveal_strlit("5");
        reveal_strlit("6");
        reveal_strlit("7");
        reveal_strlit("8");
        reveal_strlit("9");
    }
    let t = match d {
        0 => "0",
        1 => "1",
        2 => "2",
        3 => "3",
        4 => "4",
        5 => "5",
        6 => "6",
        7 => "7",
        8 => "8",
        _ => "9",
    };
    assert(t@ =~= seq![digit_char(d as int)]);
    t
}

fn append_digits(out: &mut String, n: u64)
    ensures
        final(out)@ == old(out)@ + decimal_digits(n as nat),
    decreases n,
{
    if n >= 10 {
        append_digits(out, n / 10);
    }
    out.append(digit_text((n % 10) as u8));
    assert(out@ =~= old(out)@ + decimal_digits(n as nat));
}

/// Appends an integer in decimal to a text.
pub fn append_decimal(out: &mut String, v: i64)
    ensures
        final(out)@ == old(out)@ + decimal(v as int),
{
    if v < 0 {
        out.append("-");
        proof {
            reveal_strlit("-");
        }
        let magnitude: u64 = (-(v + 1)) as u64 + 1;
        append_digits(out, magnitude);
        assert(out@ =~= old(out)@ + decimal(v as int));
    } else {
        append_digits(out, v as u64);
    }
}

/// The line that reports a value the guest wrote to a port, with the
/// newline that ends it.
pub fn report_line(port: u16, value: i32) -> (line: String)
    ensures
        line@ == report_text(port, value),
{
    let mut line = String::from_str("port[");
    append_decimal(&mut line, port as i64);
    line.append("]: ");
    append_decimal(&mut line, value as i64);
    line.append("\n");
    line
}

/// The line that tells the version of the kernel's interface, with the
/// newline that ends it.
pub fn version_line(version: i32) -> (line: String)
    ensures
        line@ == version_text(version),
{
    let mut line = String::from_str("KVM API version: ");
    append_decimal(&mut line, version as i64);
    line.append("\n");
    line
}

fn chars_of(s: &str) -> (v: Vec<char>)
    ensures
        v@ == s@,
{
    let mut v: Vec<char> = Vec::new();
    for c in it: s.chars()
        invariant
            it.seq() == s@,
            v@ == it.seq().take(it.index()),
    {
        v.push(c);
    }
    v
}

fn whitespace(c: char) -> (b: bool)
    ensures
        b == is_whitespace(c),
{
    let n: u32 = c as u32;
    (0x09 <= n && n <= 0x0D) || n == 0x20 || n == 0x85 || n == 0xA0 || n == 0x1680 || (0x2000 <= n
        && n <= 0x200A) || n == 0x2028 || n == 0x2029 || n == 0x202F || n == 0x205F || n == 0x3000
}

proof fn lemma_trim_start(s: Seq<char>, k: int)
    requires
        0 <= k <= s.len(),
        forall|j: int| 0 <= j < k ==> is_whitespace(s[j]),
        k < s.len() ==> !is_whitespace(s[k]),
    ensures
        trim_start(s) == s.skip(k),
    decreases k,
{
    if k == 0 {
        assert(s.skip(0) =~= s);
    } else {
        lemma_trim_start(s.drop_first(), k - 1);
        assert(s.drop_first().skip(k - 1) =~= s.skip(k));
    }
}

proof fn lemma_trim_end(s: Seq<char>, k: int)
    requires
        0 <= k <= s.len(),
        forall|j: int| k <= j < s.len() ==> is_whitespace(s[j]),
        k > 0 ==> !is_whitespace(s[k - 1]),
    ensures
        trim_end(s) == s.take(k),
    decreases s.len() - k,
{
    if k == s.len() {
        assert(s.take(k) =~= s);
    } else {
        lemma_trim_end(s.drop_last(), k);
        assert(s.drop_last().take(k) =~= s.take(k));
    }
}

proof fn lemma_digits_value_grows(s: Seq<char>, k: int)
    requires
        0 <= k <= s.len(),
        all_digits(s),
    ensures
        0 <= digits_value(s.take(k)) <= digits_value(s),
    decreases s.len() - k,
{
    lemma_digits_value_nonnegative(s.take(k));
    if k == s.len() {
        assert(s.take(k) =~= s);
    } else {
        lemma_digits_value_grows(s.drop_last(), k);
        assert(s.drop_last().take(k) =~= s.take(k));
        lemma_digits_value_nonnegative(s.drop_last());
    }
}

proof fn lemma_digits_value_nonnegative(s: Seq<char>)
    requires
        all_digits(s),
    ensures
        0 <= digits_value(s),
    decreases s.len(),
{
    if s.len() > 0 {
        lemma_digits_value_nonnegative(s.drop_last());
    }
}

/// Reads the digits of `chars` from `from` on, all of which must be digits,
/// at least one, and gives their value where it is at most 2^31.
fn parse_digits(chars: &Vec<char>, from: usize) -> (res: Option<i64>)
    requires
        from <= chars.len(),
    ensures
        res.is_some() <==> chars@.skip(from as int).len() > 0 && all_digits(
            chars@.skip(from as int),
        ) && digits_value(chars@.skip(from as int)) <= 0x8000_0000,
        res matches Some(m) ==> 0 <= m <= 0x8000_0000 && m == digits_value(
            chars@.skip(from as int),
        ),
{
    let n: usize = chars.len();
    let ghost digits = chars@.skip(from as int);
    if from == n {
        return None;
    }
    let mut acc: i64 = 0;
    let mut i: usize = from;
    while i < n
        invariant
            from <= i <= n,
            n == chars.len(),
            digits == chars@.skip(from as int),
            all_digits(digits.take(i - from)),
            acc == digits_value(digits.take(i - from)),
            0 <= acc <= 0x8000_0000,
        decreases n - i,
    {
        let c: char = chars[i];
        if !(c >= '0' && c <= '9') {
            assert(!is_digit(digits[i - from]));
            return None;
        }
        let d: i64 = (c as u32 - '0' as u32) as i64;
        let next: i64 = acc * 10 + d;
        proof {
            let before = digits.take(i - from);
            let after = digits.take(i + 1 - from);
            assert(after.drop_last() =~= before);
            assert(after.last() == c);
            assert(next == digits_value(after));
            assert(all_digits(after)) by {
                assert forall|j: int| 0 <= j < after.len() implies is_digit(
                    #[trigger] after[j],
                ) by {
                    if j < before.len() {
                        assert(after[j] == before[j]);
                    }
                }
            }
        }
        if next > 0x8000_0000 {
            proof {
                if all_digits(digits) {
                    lemma_digits_value_grows(digits, i + 1 - from);
                }
            }
            return None;
        }
        acc = next;
        i += 1;
    }
    assert(digits.take(n - from) =~= digits);
    Some(acc)
}

/// Reads an integer from a line of input: white space around it is set
/// aside; what is left must be an optional sign and decimal digits, with a
/// value that a signed 32-bit integer holds.
pub fn parse_integer(line: &str) -> (res: Option<i32>)
    ensures
        res == parsed_line(line@),
{
    let chars: Vec<char> = chars_of(line);
    let n: usize = chars.len();
    let mut start: usize = 0;
    while start < n && whitespace(chars[start])
        invariant
            start <= n,
            n == chars.len(),
            forall|j: int| 0 <= j < start ==> is_whitespace(chars@[j]),
        decreases n - start,
    {
        start += 1;
    }
    let mut end: usize = n;
    while end > start && whitespace(chars[end - 1])
        invariant
            start <= end <= n,
            n == chars.len(),
            forall|j: int| end <= j < n ==> is_whitespace(chars@[j]),
        decreases end,
    {
        end -= 1;
    }
    let mut text: Vec<char> = Vec::new();
    let mut k: usize = start;
    while k < end
        invariant
            start <= k <= end <= n,
            n == chars.len(),
            text@ == chars@.subrange(start as int, k as int),
        decreases end - k,
    {
        text.push(chars[k]);
        k += 1;
    }
    proof {
        lemma_trim_start(chars@, start as int);
        lemma_trim_end(chars@.skip(start as int), end - start);
        assert(chars@.skip(start as int).take(end - start) =~= text@);
        assert(text@ == trimmed(line@));
    }
    if text.len() == 0 {
        return None;
    }
    let first: char = text[0];
    let signed: bool = first == '-' || first == '+';
    let from: usize = if signed {
        1
    } else {
        0
    };
    proof {
        assert(text@.skip(0) =~= text@);
        assert(text@.skip(1) =~= text@.drop_first());
    }
    match parse_digits(&text, from) {
        None => None,
        Some(magnitude) => {
            if first == '-' {
                Some((-magnitude) as i32)
            } else if magnitude <= 0x7fff_ffff {
                Some(magnitude as i32)
            } else {
                None
            }
        },
    }
}

/// The decimal digits of a number are digits, at least one, and stand for
/// that number.
pub proof fn lemma_decimal_digits_value(n: nat)
    ensures
        decimal_digits(n).len() > 0,
        all_digits(decimal_digits(n)),
        digits_value(decimal_digits(n)) == n,
    decreases n,
{
    let digits = decimal_digits(n);
    if n < 10 {
        assert(digits.drop_last() =~= Seq::<char>::empty());
        assert(digits_value(digits.drop_last()) == 0);
    } else {
        lemma_decimal_digits_value(n / 10);
        assert(digits.drop_last() =~= decimal_digits(n / 10));
        assert(digits.last() == digit_char((n % 10) as int));
    }
}

/// What the monitor writes for a value is read back as that value: the
/// decimal text of a signed 32-bit integer, taken as a line of input, stands
/// for the same integer.
pub proof fn lemma_decimal_is_parsed(v: i32)
    ensures
        trimmed(decimal(v as int)) == decimal(v as int),
        parsed_line(decimal(v as int)) == Some(v),
{
    let text = decimal(v as int);
    let magnitude: nat = if v < 0 {
        (-v) as nat
    } else {
        v as nat
    };
    let digits = decimal_digits(magnitude);
    lemma_decimal_digits_value(magnitude);
    assert(is_digit(digits[0]));
    assert(is_digit(digits.last()));
    if v < 0 {
        assert(text.drop_first() =~= digits);
        assert(text.last() == digits.last());
    } else {
        assert(text == digits);
    }
    assert(!is_whitespace(text[0]));
    assert(!is_whitespace(text.last()));
}

} // verus!
