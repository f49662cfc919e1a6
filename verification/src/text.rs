//! Texts: comparison and the rendering of numbers.
use vstd::prelude::*;

verus! {

pub fn same_text(a: &str, b: &str) -> (r: bool)
    ensures
        r == (a@ == b@),
{
    let x = a.to_owned();
    let y = b.to_owned();
    x == y
}

/// The text of one decimal digit.
pub open spec fn digit_text(d: nat) -> Seq<char> {
    if d == 0 {
        "0"@
    } else if d == 1 {
        "1"@
    } else if d == 2 {
        "2"@
    } else if d == 3 {
        "3"@
    } else if d == 4 {
        "4"@
    } else if d == 5 {
        "5"@
    } else if d == 6 {
        "6"@
    } else if d == 7 {
        "7"@
    } else if d == 8 {
        "8"@
    } else {
        "9"@
    }
}

fn digit(d: u64) -> (r: &'static str)
    ensures
        r@ == digit_text(d as nat),
{
    if d == 0 {
        "0"
    } else if d == 1 {
        "1"
    } else if d == 2 {
        "2"
    } else if d == 3 {
        "3"
    } else if d == 4 {
        "4"
    } else if d == 5 {
        "5"
    } else if d == 6 {
        "6"
    } else if d == 7 {
        "7"
    } else if d == 8 {
        "8"
    } else {
        "9"
    }
}

/// `n` written in decimal, without leading zeros.
pub open spec fn decimal(n: nat) -> Seq<char>
    decreases n,
{
    if n < 10 {
        digit_text(n)
    } else {
        decimal(n / 10) + digit_text(n % 10)
    }
}

proof fn lemma_digit(d: nat)
    requires
        d < 10,
    ensures
        digit_text(d).len() == 1,
        digit_text(d)[0] as int == '0' as int + d,
{
    reveal_strlit("0");
    reveal_strlit("1");
    reveal_strlit("2");
    reveal_strlit("3");
    reveal_strlit("4");
    reveal_strlit("5");
    reveal_strlit("6");
    reveal_strlit("7");
    reveal_strlit("8");
    reveal_strlit("9");
}

proof fn lemma_decimal(n: nat)
    ensures
        decimal(n).len() >= 1,
        n >= 10 ==> decimal(n).len() >= 2 && decimal(n).drop_last() == decimal(n / 10),
        decimal(n).last() as int == '0' as int + n % 10,
    decreases n,
{
    lemma_digit(n % 10);
    if n >= 10 {
        lemma_decimal(n / 10);
        assert(decimal(n).drop_last() =~= decimal(n / 10));
    }
}

/// Different numbers are written differently.
pub proof fn law_decimal_injective(a: nat, b: nat)
    requires
        decimal(a) == decimal(b),
    ensures
        a == b,
    decreases a,
{
    lemma_decimal(a);
    lemma_decimal(b);
    if a < 10 {
        lemma_digit(a);
    }
    if b < 10 {
        lemma_digit(b);
    }
    if a >= 10 && b >= 10 {
        law_decimal_injective(a / 10, b / 10);
    }
}

pub fn decimal_text(n: u64) -> (r: String)
    ensures
        r@ == decimal(n as nat),
    decreases n,
{
    if n < 10 {
        digit(n).to_owned()
    } else {
        decimal_text(n / 10).concat(digit(n % 10))
    }
}

/// The first `i` characters of `s` without the underscores.
pub open spec fn digits_upto(s: Seq<char>, i: int) -> Seq<char>
    decreases i,
{
    if i <= 0 || i > s.len() {
        Seq::empty()
    } else if s[i - 1] == '_' {
        digits_upto(s, i - 1)
    } else {
        digits_upto(s, i - 1).push(s[i - 1])
    }
}

/// `s` without the underscores.
pub open spec fn digits_of(s: Seq<char>) -> Seq<char> {
    digits_upto(s, s.len() as int)
}

pub fn digits(s: &str) -> (r: String)
    ensures
        r@ == digits_of(s@),
{
    let n: usize = s.unicode_len();
    let mut out = String::new();
    let mut i: usize = 0;
    while i < n
        invariant
            i <= n == s@.len(),
            out@ == digits_upto(s@, i as int),
        decreases n - i,
    {
        if s.get_char(i) != '_' {
            let c = s.substring_char(i, i + 1);
            out = out.concat(c);
            assert(c@ =~= seq![s@[i as int]]);
            assert(out@ =~= digits_upto(s@, i as int).push(s@[i as int]));
        }
        i = i + 1;
    }
    out
}

/// The value of a digit below `radix`.
pub open spec fn digit_value(c: char, radix: u32) -> Option<u32> {
    let v = if '0' <= c && c <= '9' {
        (c as u32 - 48) as u32
    } else if 'a' <= c && c <= 'f' {
        (c as u32 - 87) as u32
    } else if 'A' <= c && c <= 'F' {
        (c as u32 - 55) as u32
    } else {
        radix
    };
    if v < radix {
        Some(v)
    } else {
        None
    }
}

fn value_of_digit(c: char, radix: u32) -> (r: Option<u32>)
    ensures
        r == digit_value(c, radix),
{
    let v: u32 = if '0' <= c && c <= '9' {
        c as u32 - 48
    } else if 'a' <= c && c <= 'f' {
        c as u32 - 87
    } else if 'A' <= c && c <= 'F' {
        c as u32 - 55
    } else {
        radix
    };
    if v < radix {
        Some(v)
    } else {
        None
    }
}

/// The number that the first `i` digits of `d` write, if it is at most `limit`.
pub open spec fn number_upto(d: Seq<char>, radix: u32, limit: u128, i: int) -> Option<u128>
    decreases i,
{
    if i <= 0 || i > d.len() {
        Some(0)
    } else {
        match (number_upto(d, radix, limit, i - 1), digit_value(d[i - 1], radix)) {
            (Some(v), Some(x)) => if v * radix + x <= limit {
                Some((v * radix + x) as u128)
            } else {
                None
            },
            _ => None,
        }
    }
}

/// The number that `d` writes in base `radix`; `None` if there is no digit, a
/// character that is none, or the number exceeds `limit`.
pub open spec fn number_of(d: Seq<char>, radix: u32, limit: u128) -> Option<u128> {
    if d.len() == 0 {
        None
    } else {
        number_upto(d, radix, limit, d.len() as int)
    }
}

proof fn lemma_number_none(d: Seq<char>, radix: u32, limit: u128, i: int, j: int)
    requires
        0 < i <= j <= d.len(),
        number_upto(d, radix, limit, i) is None,
    ensures
        number_upto(d, radix, limit, j) is None,
    decreases j,
{
    if i < j {
        lemma_number_none(d, radix, limit, i, j - 1);
    }
}

pub fn parse_number(d: &str, radix: u32, limit: u128) -> (r: Option<u128>)
    ensures
        r == number_of(d@, radix, limit),
{
    let n: usize = d.unicode_len();
    if n == 0 {
        return None;
    }
    let mut v: u128 = 0;
    let mut i: usize = 0;
    while i < n
        invariant
            i <= n == d@.len(),
            number_upto(d@, radix, limit, i as int) == Some(v),
        decreases n - i,
    {
        let x: u32 = match value_of_digit(d.get_char(i), radix) {
            Some(x) => x,
            None => {
                proof {
                    lemma_number_none(d@, radix, limit, i + 1, n as int);
                }
                return None;
            },
        };
        let next = match v.checked_mul(radix as u128) {
            Some(a) => a.checked_add(x as u128),
            None => None,
        };
        match next {
            Some(w) => {
                if w > limit {
                    proof {
                        lemma_number_none(d@, radix, limit, i + 1, n as int);
                    }
                    return None;
                }
                v = w;
            },
            None => {
                proof {
                    lemma_number_none(d@, radix, limit, i + 1, n as int);
                }
                return None;
            },
        }
        i = i + 1;
    }
    Some(v)
}

/// The code of the character that a literal writes between its quotes: the
/// character itself, a one-letter escape or `\u{hex}`.
pub open spec fn char_code(s: Seq<char>) -> Option<u32> {
    if s.len() == 0 {
        None
    } else if s[0] != '\\' {
        if s.len() == 1 {
            Some(s[0] as u32)
        } else {
            None
        }
    } else if s.len() == 2 {
        escape_code(s[1])
    } else if s.len() > 4 && s[1] == 'u' && s[2] == '{' && s[s.len() - 1] == '}' {
        match number_of(s.subrange(3, s.len() - 1), 16, 0x10ffff) {
            Some(v) => Some(v as u32),
            None => None,
        }
    } else {
        None
    }
}

/// The code of the character that `\c` writes.
pub open spec fn escape_code(c: char) -> Option<u32> {
    if c == 'n' {
        Some(10)
    } else if c == 't' {
        Some(9)
    } else if c == 'r' {
        Some(13)
    } else if c == '0' {
        Some(0)
    } else if c == '\\' {
        Some(92)
    } else if c == '\'' {
        Some(39)
    } else if c == '"' {
        Some(34)
    } else {
        None
    }
}

fn code_of_escape(c: char) -> (r: Option<u32>)
    ensures
        r == escape_code(c),
{
    if c == 'n' {
        Some(10)
    } else if c == 't' {
        Some(9)
    } else if c == 'r' {
        Some(13)
    } else if c == '0' {
        Some(0)
    } else if c == '\\' {
        Some(92)
    } else if c == '\'' {
        Some(39)
    } else if c == '"' {
        Some(34)
    } else {
        None
    }
}

pub fn parse_char(s: &str) -> (r: Option<u32>)
    ensures
        r == char_code(s@),
{
    let n: usize = s.unicode_len();
    if n == 0 {
        return None;
    }
    let first = s.get_char(0);
    if first != '\\' {
        return if n == 1 {
            Some(first as u32)
        } else {
            None
        };
    }
    if n == 2 {
        return code_of_escape(s.get_char(1));
    }
    if n > 4 && s.get_char(1) == 'u' && s.get_char(2) == '{' && s.get_char(n - 1) == '}' {
        match parse_number(s.substring_char(3, n - 1), 16, 0x10ffff) {
            Some(v) => Some(v as u32),
            None => None,
        }
    } else {
        None
    }
}

} // verus!
