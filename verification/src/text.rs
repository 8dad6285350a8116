//! Plain-text helpers: decimal rendering of small numbers, whitespace
//! splitting, and parsing of unsigned 8-bit decimal numbers.
use vstd::prelude::*;

verus! {

/// The character for a single decimal digit.
pub open spec fn digit_char(d: int) -> char {
    if d == 0 {
        '0'
    } else if d == 1 {
        '1'
    } else if d == 2 {
        '2'
    } else if d == 3 {
        '3'
    } else if d == 4 {
        '4'
    } else if d == 5 {
        '5'
    } else if d == 6 {
        '6'
    } else if d == 7 {
        '7'
    } else if d == 8 {
        '8'
    } else {
        '9'
    }
}

/// The decimal rendering of a non-negative number, most significant digit
/// first, with no leading zeros (a lone `0` renders as "0").
pub open spec fn dec_rep(n: int) -> Seq<char>
    decreases n,
{
    if n < 10 {
        seq![digit_char(n)]
    } else {
        dec_rep(n / 10) + seq![digit_char(n % 10)]
    }
}

/// A one-character string for a decimal digit.
fn digit_str(d: u8) -> (r: &'static str)
    requires
        d < 10,
    ensures
        r@ == seq![digit_char(d as int)],
{
    proof {
        reveal_strlit("0");
        reveal_strlit("1");
        reveal_strlit("2");
        reveal_strlit("3");
        reveal_strlit("4");
        reveal_strlit("5");
        reveal_strlit("6");
        reveal_strlit("7");
        reveal_strlit("8");
        reveal_strlit("9");
    }
    let r = match d {
        0 => "0",
        1 => "1",
        2 => "2",
        3 => "3",
        4 => "4",
        5 => "5",
        6 => "6",
        7 => "7",
        8 => "8",
        _ => "9",
    };
    proof {
        assert(r@.len() == 1);
        assert(r@ =~= seq![digit_char(d as int)]);
    }
    r
}

/// Renders a number in decimal, as `dec_rep` describes.
pub fn u8_string(n: u8) -> (r: String)
    ensures
        r@ == dec_rep(n as int),
{
    if n < 10 {
        let mut s = String::new();
        s.append(digit_str(n));
        proof {
            assert(s@ =~= dec_rep(n as int));
        }
        s
    } else if n < 100 {
        let mut s = String::new();
        s.append(digit_str(n / 10));
        s.append(digit_str(n % 10));
        proof {
            assert(1 <= n as int / 10 < 10);
            assert(dec_rep(n as int / 10) == seq![digit_char(n as int / 10)]);
            assert(s@ =~= dec_rep(n as int));
        }
        s
    } else {
        let mut s = String::new();
        s.append(digit_str(n / 100));
        s.append(digit_str((n / 10) % 10));
        s.append(digit_str(n % 10));
        proof {
            assert(10 <= n as int / 10 < 100);
            assert(1 <= n as int / 100 < 10);
            assert((n as int / 10) / 10 == n as int / 100) by (nonlinear_arith);
            assert((n as int / 10) % 10 == (n / 10) as int % 10);
            assert(dec_rep(n as int / 100) == seq![digit_char(n as int / 100)]);
            assert(dec_rep(n as int / 10) == seq![
                digit_char(n as int / 100),
                digit_char((n as int / 10) % 10),
            ]);
            assert(s@ =~= dec_rep(n as int));
        }
        s
    }
}

/// Why a token failed to read as an unsigned 8-bit number.
#[derive(Debug, PartialEq, Eq)]
pub enum NumFailure {
    /// The token was empty.
    EmptyText,
    /// A character other than a decimal digit appeared (a lone sign counts).
    BadDigit,
    /// The digits read so far already exceed 255.
    TooLarge,
}

impl NumFailure {
    /// The text that reports this failure.
    pub open spec fn spec_message(self) -> Seq<char> {
        match self {
            NumFailure::EmptyText => "cannot parse integer from empty string"@,
            NumFailure::BadDigit => "invalid digit found in string"@,
            NumFailure::TooLarge => "number too large to fit in target type"@,
        }
    }

    /// Renders the failure, as `spec_message` describes.
    pub fn message(&self) -> (r: String)
        ensures
            r@ == self.spec_message(),
    {
        match self {
            NumFailure::EmptyText => String::from_str("cannot parse integer from empty string"),
            NumFailure::BadDigit => String::from_str("invalid digit found in string"),
            NumFailure::TooLarge => String::from_str("number too large to fit in target type"),
        }
    }
}

/// Whether a character is a decimal digit.
pub open spec fn is_digit(c: char) -> bool {
    48 <= c as u32 <= 57
}

/// The numeric value of a decimal digit character.
pub open spec fn digit_val(c: char) -> int {
    c as u32 - 48
}

/// Reads digits left to right onto an accumulated value, failing on the
/// first non-digit, or with `TooLarge` as soon as the value passes 255.
pub open spec fn scan_u8(s: Seq<char>, acc: int) -> Result<u8, NumFailure>
    decreases s.len(),
{
    if s.len() == 0 {
        Ok(acc as u8)
    } else if !is_digit(s[0]) {
        Err(NumFailure::BadDigit)
    } else if acc * 10 + digit_val(s[0]) > 255 {
        Err(NumFailure::TooLarge)
    } else {
        scan_u8(s.skip(1), acc * 10 + digit_val(s[0]))
    }
}

/// What parsing a token as an unsigned 8-bit decimal number returns: an
/// optional leading `+`, then digits; empty input and a lone sign fail.
pub open spec fn spec_parse_u8(s: Seq<char>) -> Result<u8, NumFailure> {
    if s.len() == 0 {
        Err(NumFailure::EmptyText)
    } else {
        let body = if s[0] == '+' {
            s.skip(1)
        } else {
            s
        };
        if body.len() == 0 {
            Err(NumFailure::BadDigit)
        } else {
            scan_u8(body, 0)
        }
    }
}

proof fn lemma_skip_one(s: Seq<char>, i: int)
    requires
        0 <= i < s.len(),
    ensures
        s.skip(i).skip(1) == s.skip(i + 1),
        s.skip(i)[0] == s[i],
        s.skip(i).len() == s.len() - i,
{
    assert(s.skip(i).skip(1) =~= s.skip(i + 1));
}

/// Parses a token as an unsigned 8-bit decimal number, as `spec_parse_u8`
/// describes.
pub fn parse_u8(s: &str) -> (r: Result<u8, NumFailure>)
    ensures
        r == spec_parse_u8(s@),
{
    let n = s.unicode_len();
    if n == 0 {
        return Err(NumFailure::EmptyText);
    }
    let start: usize = if s.get_char(0) == '+' {
        1
    } else {
        0
    };
    if start == n {
        return Err(NumFailure::BadDigit);
    }
    let ghost body: Seq<char> = if s@[0] == '+' {
        s@.skip(1)
    } else {
        s@
    };
    proof {
        assert(body == s@.skip(start as int));
        assert(spec_parse_u8(s@) == scan_u8(body, 0));
    }
    let mut acc: u8 = 0;
    let mut i: usize = start;
    loop
        invariant
            start <= i <= n,
            n == s@.len(),
            body == s@.skip(start as int),
            spec_parse_u8(s@) == scan_u8(body, 0),
            scan_u8(body, 0) == scan_u8(s@.skip(i as int), acc as int),
        decreases n - i,
    {
        if i == n {
            proof {
                assert(s@.skip(i as int).len() == 0);
            }
            return Ok(acc);
        }
        let c = s.get_char(i);
        proof {
            lemma_skip_one(s@, i as int);
        }
        let code = c as u32;
        if code < 48 || code > 57 {
            return Err(NumFailure::BadDigit);
        }
        let d = (code - 48) as u8;
        let wide: u16 = acc as u16 * 10 + d as u16;
        if wide > 255 {
            return Err(NumFailure::TooLarge);
        }
        acc = wide as u8;
        i = i + 1;
    }
}

/// Whether a character is whitespace (the Unicode `White_Space` set, the
/// one `str::split_whitespace` splits on).
pub open spec fn is_ws(c: char) -> bool {
    ||| c == ' '
    ||| c == '\t'
    ||| c == '\n'
    ||| c == '\r'
    ||| c == '\u{000B}'
    ||| c == '\u{000C}'
    ||| c == '\u{0085}'
    ||| c == '\u{00A0}'
    ||| c == '\u{1680}'
    ||| 0x2000 <= c as u32 <= 0x200A
    ||| c == '\u{2028}'
    ||| c == '\u{2029}'
    ||| c == '\u{202F}'
    ||| c == '\u{205F}'
    ||| c == '\u{3000}'
}

/// Decides `is_ws`.
pub fn is_ws_char(c: char) -> (r: bool)
    ensures
        r == is_ws(c),
{
    let code = c as u32;
    code == 0x20 || code == 0x09 || code == 0x0A || code == 0x0D || code == 0x0B || code == 0x0C
        || code == 0x85 || code == 0xA0 || code == 0x1680 || (0x2000 <= code && code <= 0x200A)
        || code == 0x2028 || code == 0x2029 || code == 0x202F || code == 0x205F || code == 0x3000
}

/// The whitespace-separated tokens of `s` after `cur`, the token read so
/// far: characters are taken one at a time; whitespace closes `cur`.
pub open spec fn tokens_acc(s: Seq<char>, cur: Seq<char>) -> Seq<Seq<char>>
    decreases s.len(),
{
    if s.len() == 0 {
        if cur.len() == 0 {
            Seq::empty()
        } else {
            seq![cur]
        }
    } else if is_ws(s[0]) {
        if cur.len() == 0 {
            tokens_acc(s.skip(1), Seq::empty())
        } else {
            seq![cur] + tokens_acc(s.skip(1), Seq::empty())
        }
    } else {
        tokens_acc(s.skip(1), cur.push(s[0]))
    }
}

/// The whitespace-separated tokens of a text, in order, each non-empty.
pub open spec fn tokens(s: Seq<char>) -> Seq<Seq<char>> {
    tokens_acc(s, Seq::empty())
}

/// Splits a text on whitespace, as `tokens` describes.
pub fn split_ws(s: &str) -> (r: Vec<String>)
    ensures
        r.deep_view() == tokens(s@),
{
    let n = s.unicode_len();
    let mut out: Vec<String> = Vec::new();
    let mut i: usize = 0;
    proof {
        assert(s@.skip(0) =~= s@);
        assert(out.deep_view() =~~= Seq::<Seq<char>>::empty());
        assert(tokens(s@) =~~= out.deep_view() + tokens_acc(s@.skip(0), Seq::empty()));
    }
    while i < n
        invariant
            i <= n,
            n == s@.len(),
            tokens(s@) == out.deep_view() + tokens_acc(s@.skip(i as int), Seq::empty()),
        decreases n - i,
    {
        let c = s.get_char(i);
        proof {
            lemma_skip_one(s@, i as int);
        }
        if is_ws_char(c) {
            i = i + 1;
        } else {
            let start = i;
            i = i + 1;
            proof {
                assert(Seq::<char>::empty().push(s@[start as int]) =~= s@.subrange(
                    start as int,
                    start as int + 1,
                ));
            }
            while i < n && !is_ws_char(s.get_char(i))
                invariant
                    start < i <= n,
                    n == s@.len(),
                    tokens_acc(s@.skip(start as int), Seq::empty()) == tokens_acc(
                        s@.skip(i as int),
                        s@.subrange(start as int, i as int),
                    ),
                decreases n - i,
            {
                proof {
                    lemma_skip_one(s@, i as int);
                    assert(s@.subrange(start as int, i as int).push(s@[i as int]) =~= s@.subrange(
                        start as int,
                        i as int + 1,
                    ));
                }
                i = i + 1;
            }
            let token = s.substring_char(start, i).to_owned();
            let ghost old_out = out.deep_view();
            out.push(token);
            proof {
                assert(out.deep_view() =~~= old_out + seq![s@.subrange(start as int, i as int)]);
                if i < n {
                    lemma_skip_one(s@, i as int);
                    assert(tokens_acc(s@.skip(i as int), s@.subrange(start as int, i as int))
                        == seq![s@.subrange(start as int, i as int)] + tokens_acc(
                        s@.skip(i as int),
                        Seq::empty(),
                    ));
                } else {
                    assert(s@.skip(i as int).len() == 0);
                }
            }
        }
    }
    proof {
        assert(s@.skip(n as int).len() == 0);
        assert(out.deep_view() =~~= tokens(s@));
    }
    out
}

} // verus!
