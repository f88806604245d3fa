//! The background colour passed on the command line, written as three
//! whitespace-separated decimal components: `"r g b"`.

use vstd::prelude::*;
use vstd::string::StrSliceExecFns;

verus! {

/// ASCII whitespace, the separators between the colour components.
pub open spec fn is_space(c: char) -> bool {
    c == ' ' || c == '\t' || c == '\n' || c == '\r' || c == '\x0c'
}

/// An ASCII decimal digit.
pub open spec fn is_digit(c: char) -> bool {
    ('0' as u32) <= (c as u32) && (c as u32) <= ('9' as u32)
}

/// The value of one decimal digit.
pub open spec fn digit_val(c: char) -> int {
    c as u32 - '0' as u32
}

/// The whitespace-separated tokens of `s`, with `cur` the token read so far:
/// a space closes `cur` (when it holds anything), any other character extends
/// it.
pub open spec fn spec_tokens_from(s: Seq<char>, cur: Seq<char>) -> Seq<Seq<char>>
    decreases s.len(),
{
    if s.len() == 0 {
        if cur.len() == 0 {
            Seq::empty()
        } else {
            seq![cur]
        }
    } else if is_space(s[0]) {
        if cur.len() == 0 {
            spec_tokens_from(s.skip(1), cur)
        } else {
            seq![cur] + spec_tokens_from(s.skip(1), Seq::empty())
        }
    } else {
        spec_tokens_from(s.skip(1), cur.push(s[0]))
    }
}

/// The whitespace-separated tokens of `s`.
pub open spec fn spec_tokens(s: Seq<char>) -> Seq<Seq<char>> {
    spec_tokens_from(s, Seq::empty())
}

/// The numeric value of a digit string, most significant digit first.
pub open spec fn spec_digits_val(t: Seq<char>) -> int
    decreases t.len(),
{
    if t.len() == 0 {
        0
    } else {
        spec_digits_val(t.drop_last()) * 10 + digit_val(t.last())
    }
}

/// A non-empty, all-digit string.
pub open spec fn spec_all_digits(t: Seq<char>) -> bool {
    t.len() > 0 && forall|i: int| 0 <= i < t.len() ==> is_digit(t[i])
}

/// What a colour component token parses to: an optional leading `+`, then at
/// least one decimal digit, with a value no greater than 255.
pub open spec fn spec_parse_u8(t: Seq<char>) -> Option<u8> {
    let digits = if t.len() > 0 && t[0] == '+' {
        t.skip(1)
    } else {
        t
    };
    if spec_all_digits(digits) && spec_digits_val(digits) <= 255 {
        Option::Some(spec_digits_val(digits) as u8)
    } else {
        Option::None
    }
}

/// What a whole command-line value parses to: exactly three tokens, each a
/// valid component — a wrong shape is an invalid format, a bad component an
/// invalid number.
pub open spec fn spec_parse_color(s: Seq<char>) -> Result<Color, ColorParseError> {
    let tokens = spec_tokens(s);
    if tokens.len() != 3 {
        Result::Err(ColorParseError::InvalidFormat)
    } else {
        match (spec_parse_u8(tokens[0]), spec_parse_u8(tokens[1]), spec_parse_u8(tokens[2])) {
            (Option::Some(r), Option::Some(g), Option::Some(b)) => Result::Ok(Color { r, g, b }),
            _ => Result::Err(ColorParseError::InvalidNumber),
        }
    }
}

#[derive(Clone, Copy, Debug, PartialEq, Eq, Structural)]
pub enum ColorParseError {
    /// The value does not have the shape `"r g b"`.
    InvalidFormat,
    /// A component is not a decimal number between 0 and 255.
    InvalidNumber,
}

#[derive(Clone, Copy, Debug, PartialEq, Eq, Structural)]
pub struct Color {
    pub r: u8,
    pub g: u8,
    pub b: u8,
}

impl Color {
    pub fn r(&self) -> (r: u8)
        ensures
            r == self.r,
    {
        self.r
    }

    pub fn g(&self) -> (r: u8)
        ensures
            r == self.g,
    {
        self.g
    }

    pub fn b(&self) -> (r: u8)
        ensures
            r == self.b,
    {
        self.b
    }
}

/// The value of an all-digit string is never negative.
proof fn lemma_digits_val_nonneg(t: Seq<char>)
    requires
        forall|i: int| 0 <= i < t.len() ==> is_digit(#[trigger] t[i]),
    ensures
        0 <= spec_digits_val(t),
    decreases t.len(),
{
    if t.len() > 0 {
        assert(forall|i: int|
            0 <= i < t.drop_last().len() ==> is_digit(#[trigger] t.drop_last()[i]));
        lemma_digits_val_nonneg(t.drop_last());
    }
}

/// Reading more digits never lowers the value: the value of any prefix of an
/// all-digit string bounds the value of the whole from below.
proof fn lemma_digits_prefix_bound(t: Seq<char>, k: int)
    requires
        0 <= k <= t.len(),
        forall|i: int| 0 <= i < t.len() ==> is_digit(#[trigger] t[i]),
    ensures
        spec_digits_val(t.take(k)) <= spec_digits_val(t),
    decreases t.len() - k,
{
    if k == t.len() {
        assert(t.take(k) =~= t);
    } else {
        lemma_digits_prefix_bound(t, k + 1);
        assert(forall|i: int| 0 <= i < t.take(k).len() ==> is_digit(#[trigger] t.take(k)[i]));
        lemma_digits_val_nonneg(t.take(k));
        assert(t.take(k + 1).drop_last() =~= t.take(k));
        assert(t.take(k + 1).last() == t[k]);
        assert(spec_digits_val(t.take(k + 1)) == spec_digits_val(t.take(k)) * 10 + digit_val(
            t[k],
        ));
    }
}

/// One component of the colour value: an optional `+`, then decimal digits
/// whose value fits a byte.
fn parse_component(t: &Vec<char>) -> (r: Option<u8>)
    ensures
        r == spec_parse_u8(t@),
{
    let offset: usize = if t.len() > 0 && t[0] == '+' {
        1
    } else {
        0
    };
    let ghost digits = if t@.len() > 0 && t@[0] == '+' {
        t@.skip(1)
    } else {
        t@
    };
    proof {
        assert(digits.len() == t@.len() - offset);
        assert(forall|i: int| 0 <= i < digits.len() ==> digits[i] == t@[i + offset]);
    }
    if t.len() == offset {
        return None;
    }
    let mut acc: u32 = 0;
    let mut j: usize = offset;
    proof {
        assert(digits.take(0) =~= Seq::<char>::empty());
    }
    while j < t.len()
        invariant
            offset <= j <= t@.len(),
            offset <= 1,
            digits.len() == t@.len() - offset,
            forall|i: int| 0 <= i < digits.len() ==> digits[i] == t@[i + offset],
            digits == (if t@.len() > 0 && t@[0] == '+' {
                t@.skip(1)
            } else {
                t@
            }),
            forall|i: int| 0 <= i < j - offset ==> is_digit(#[trigger] digits[i]),
            acc <= 255,
            acc == spec_digits_val(digits.take(j - offset)),
        decreases t@.len() - j,
    {
        let c = t[j];
        let cu = c as u32;
        if cu < 48 || cu > 57 {
            proof {
                assert(!is_digit(digits[j - offset]));
            }
            return None;
        }
        proof {
            assert(is_digit(digits[j - offset]));
            assert(digits.take(j - offset + 1).drop_last() =~= digits.take(j - offset));
            assert(digits.take(j - offset + 1).last() == digits[j - offset]);
        }
        acc = acc * 10 + (cu - 48);
        j = j + 1;
        if acc > 255 {
            proof {
                if spec_all_digits(digits) {
                    lemma_digits_prefix_bound(digits, j - offset);
                }
            }
            return None;
        }
    }
    proof {
        assert(digits.take(digits.len() as int) =~= digits);
    }
    Some(acc as u8)
}

impl Color {
    /// Parses a colour written as three whitespace-separated decimal
    /// components, `"r g b"`: a wrong number of components is an invalid
    /// format, a component that is not a byte-sized decimal number an
    /// invalid number.
    pub fn from_str(s: &str) -> (r: Result<Color, ColorParseError>)
        ensures
            r == spec_parse_color(s@),
    {
        let n = s.unicode_len();
        let mut tokens: Vec<Vec<char>> = Vec::new();
        let mut cur: Vec<char> = Vec::new();
        let mut i: usize = 0;
        proof {
            assert(s@.skip(0) =~= s@);
            assert(tokens.deep_view() =~= Seq::<Seq<char>>::empty());
        }
        while i < n
            invariant
                i <= n,
                n == s@.len(),
                spec_tokens(s@) == tokens.deep_view() + spec_tokens_from(
                    s@.skip(i as int),
                    cur@,
                ),
            decreases n - i,
        {
            let c = s.get_char(i);
            let ghost pre_tokens = tokens.deep_view();
            let ghost pre_cur = cur@;
            let ghost rest = s@.skip(i as int);
            proof {
                assert(rest[0] == s@[i as int]);
                assert(rest.skip(1) =~= s@.skip(i as int + 1));
            }
            if c == ' ' || c == '\t' || c == '\n' || c == '\r' || c == '\x0c' {
                if cur.len() > 0 {
                    tokens.push(cur);
                    cur = Vec::new();
                    proof {
                        assert(tokens.deep_view() =~~= pre_tokens.push(pre_cur));
                        assert(pre_tokens + (seq![pre_cur] + spec_tokens_from(
                            rest.skip(1),
                            Seq::empty(),
                        )) =~= pre_tokens.push(pre_cur) + spec_tokens_from(
                            rest.skip(1),
                            Seq::empty(),
                        ));
                        assert(cur@ =~= Seq::<char>::empty());
                    }
                }
            } else {
                cur.push(c);
            }
            i = i + 1;
        }
        proof {
            assert(s@.skip(n as int) =~= Seq::<char>::empty());
        }
        if cur.len() > 0 {
            let ghost pre_tokens = tokens.deep_view();
            let ghost pre_cur = cur@;
            tokens.push(cur);
            proof {
                assert(tokens.deep_view() =~~= pre_tokens.push(pre_cur));
                assert(pre_tokens + seq![pre_cur] =~= pre_tokens.push(pre_cur));
            }
        } else {
            proof {
                assert(spec_tokens(s@) =~= tokens.deep_view());
            }
        }
        proof {
            assert(spec_tokens(s@) =~= tokens.deep_view());
            assert(spec_tokens(s@).len() == tokens@.len());
        }
        if tokens.len() != 3 {
            return Err(ColorParseError::InvalidFormat);
        }
        proof {
            assert(tokens.deep_view()[0] =~= tokens@[0]@);
            assert(tokens.deep_view()[1] =~= tokens@[1]@);
            assert(tokens.deep_view()[2] =~= tokens@[2]@);
        }
        let red = parse_component(&tokens[0]);
        let green = parse_component(&tokens[1]);
        let blue = parse_component(&tokens[2]);
        match (red, green, blue) {
            (Some(r), Some(g), Some(b)) => Ok(Color { r, g, b }),
            _ => Err(ColorParseError::InvalidNumber),
        }
    }
}

impl From<(u8, u8, u8)> for Color {
    fn from(value: (u8, u8, u8)) -> (r: Self)
        ensures
            r == (Color { r: value.0, g: value.1, b: value.2 }),
    {
        Self { r: value.0, g: value.1, b: value.2 }
    }
}

impl vstd::std_specs::convert::FromSpecImpl<(u8, u8, u8)> for Color {
    open spec fn obeys_from_spec() -> bool {
        true
    }

    open spec fn from_spec(value: (u8, u8, u8)) -> Self {
        Color { r: value.0, g: value.1, b: value.2 }
    }
}

} // verus!
