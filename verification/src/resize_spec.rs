//! The grammar of resize specifications: `WxH` for literal pixel dimensions,
//! `N%` for a scale relative to the source image.

use vstd::prelude::*;
use crate::text::chars_of;

verus! {

/// Why a resize specification was rejected.
#[derive(Clone, Copy, Debug, PartialEq, Eq, Structural)]
pub enum ParseError {
    /// The text before the percent sign is not a number.
    InvalidPercentage,
    /// The text is neither `N%` nor two non-empty parts around a single `x`.
    BadFormat,
    /// The part before the `x` is not an unsigned integer.
    InvalidWidth,
    /// The part after the `x` is not an unsigned integer.
    InvalidHeight,
    /// A resulting dimension is not positive.
    InvalidDimensions,
}

/// A resize specification as written, before any source image is known.
#[derive(Debug, PartialEq, Eq)]
pub enum ResizeSpec {
    /// `N%`: the text before the final percent sign, not yet read as a
    /// number.
    Percent(String),
    /// `WxH`: width and height in pixels.
    Exact(u32, u32),
}

/// The mathematical content of a [`ResizeSpec`].
pub enum ResizeSpecView {
    Percent(Seq<char>),
    Exact(u32, u32),
}

impl View for ResizeSpec {
    type V = ResizeSpecView;

    open spec fn view(&self) -> ResizeSpecView {
        match self {
            ResizeSpec::Percent(number) => ResizeSpecView::Percent(number@),
            ResizeSpec::Exact(width, height) => ResizeSpecView::Exact(*width, *height),
        }
    }
}

/// Width and height to resize to, in pixels. Both are positive.
#[derive(Clone, Copy, Debug, PartialEq, Eq)]
pub struct ResizeTarget {
    width: u32,
    height: u32,
}

/// Whether `c` is a decimal digit.
pub open spec fn is_digit(c: char) -> bool {
    '0' <= c && c <= '9'
}

/// The number a decimal digit stands for.
pub open spec fn digit_value(c: char) -> nat {
    (c as u32 - '0' as u32) as nat
}

/// The number that a sequence of decimal digits denotes; zero for none.
pub open spec fn digits_value(s: Seq<char>) -> nat
    decreases s.len(),
{
    if s.len() == 0 {
        0
    } else {
        10 * digits_value(s.drop_last()) + digit_value(s.last())
    }
}

/// Whether every character of `s` is a decimal digit.
pub open spec fn all_digits(s: Seq<char>) -> bool {
    forall|i: int| 0 <= i < s.len() ==> is_digit(#[trigger] s[i])
}

/// `s` without a leading plus sign.
pub open spec fn unsigned_digits(s: Seq<char>) -> Seq<char> {
    if s.len() > 0 && s[0] == '+' {
        s.drop_first()
    } else {
        s
    }
}

/// The unsigned 32-bit integer that `s` denotes in decimal: an optional
/// plus sign followed by at least one digit and nothing else, the value
/// within range. Anything else denotes none.
pub open spec fn decimal_u32(s: Seq<char>) -> Option<u32> {
    let digits = unsigned_digits(s);
    if digits.len() > 0 && all_digits(digits) && digits_value(digits) <= u32::MAX {
        Some(digits_value(digits) as u32)
    } else {
        None
    }
}

/// Whether `text` holds exactly one `x`, at index `i`.
pub open spec fn sole_separator(text: Seq<char>, i: int) -> bool {
    &&& 0 <= i < text.len()
    &&& text[i] == 'x'
    &&& forall|j: int| 0 <= j < text.len() && j != i ==> text[j] != 'x'
}

/// The two parts of `text` around its only `x`; none where `text` holds no
/// `x` or more than one.
pub open spec fn exact_parts(text: Seq<char>) -> Option<(Seq<char>, Seq<char>)> {
    if exists|i: int| sole_separator(text, i) {
        let i = choose|i: int| sole_separator(text, i);
        Some((text.subrange(0, i), text.subrange(i + 1, text.len() as int)))
    } else {
        None
    }
}

/// What a resize specification says.
///
/// Text that ends in a percent sign is a percentage; the text before that
/// one sign is its number, whatever it holds. Any other text must be two
/// non-empty parts around a single `x`, each an unsigned integer.
pub open spec fn parse_spec(text: Seq<char>) -> Result<ResizeSpecView, ParseError> {
    if text.len() > 0 && text.last() == '%' {
        Ok(ResizeSpecView::Percent(text.drop_last()))
    } else {
        match exact_parts(text) {
            None => Err(ParseError::BadFormat),
            Some((w, h)) => if w.len() == 0 || h.len() == 0 {
                Err(ParseError::BadFormat)
            } else {
                match decimal_u32(w) {
                    None => Err(ParseError::InvalidWidth),
                    Some(width) => match decimal_u32(h) {
                        None => Err(ParseError::InvalidHeight),
                        Some(height) => Ok(ResizeSpecView::Exact(width, height)),
                    },
                }
            },
        }
    }
}

/// The dimensions to resize to, or the reason there are none.
///
/// A percentage takes its dimensions from `scaled`: the source dimensions
/// scaled by the percentage, or `None` where its number could not be read.
/// Literal dimensions stand for themselves. Either way both must be
/// positive.
pub open spec fn target_spec(spec: ResizeSpecView, scaled: Option<(u32, u32)>) -> Result<
    (u32, u32),
    ParseError,
> {
    let dimensions = match spec {
        ResizeSpecView::Percent(_) => scaled,
        ResizeSpecView::Exact(width, height) => Some((width, height)),
    };
    match dimensions {
        None => Err(ParseError::InvalidPercentage),
        Some((width, height)) => if width >= 1 && height >= 1 {
            Ok((width, height))
        } else {
            Err(ParseError::InvalidDimensions)
        },
    }
}

/// A target has two positive dimensions, whatever the specification and
/// whatever was scaled: a dimension of zero is an error, never a target.
pub proof fn lemma_target_is_positive(spec: ResizeSpecView, scaled: Option<(u32, u32)>)
    ensures
        target_spec(spec, scaled) matches Ok(dimensions) ==> dimensions.0 >= 1 && dimensions.1
            >= 1,
{
}

/// Literal dimensions are the target whatever the source image is: what
/// was scaled from it plays no part.
pub proof fn lemma_exact_ignores_source(
    width: u32,
    height: u32,
    one: Option<(u32, u32)>,
    other: Option<(u32, u32)>,
)
    ensures
        target_spec(ResizeSpecView::Exact(width, height), one) == target_spec(
            ResizeSpecView::Exact(width, height),
            other,
        ),
        width >= 1 && height >= 1 ==> target_spec(ResizeSpecView::Exact(width, height), one)
            == Ok::<(u32, u32), ParseError>((width, height)),
{
}

/// A sequence of digits denotes at least what it denotes without its last
/// digits.
proof fn lemma_digits_value_grows(s: Seq<char>, k: int)
    requires
        0 <= k <= s.len(),
    ensures
        digits_value(s.take(k)) <= digits_value(s),
    decreases s.len() - k,
{
    if k == s.len() {
        assert(s.take(k) =~= s);
    } else {
        lemma_digits_value_grows(s, k + 1);
        assert(s.take(k + 1).drop_last() =~= s.take(k));
    }
}

/// Reads `chars[from..to]` as an unsigned decimal integer.
fn parse_u32(chars: &Vec<char>, from: usize, to: usize) -> (r: Option<u32>)
    requires
        from <= to <= chars.len(),
    ensures
        r == decimal_u32(chars@.subrange(from as int, to as int)),
{
    let mut start: usize = from;
    if start < to && chars[start] == '+' {
        start += 1;
    }
    let ghost digits = unsigned_digits(chars@.subrange(from as int, to as int));
    if start == to {
        return None;
    }
    let mut value: u64 = 0;
    let mut i: usize = start;
    while i < to
        invariant
            from <= start <= i <= to <= chars.len(),
            start < to,
            digits == unsigned_digits(chars@.subrange(from as int, to as int)),
            digits == chars@.subrange(start as int, to as int),
            all_digits(digits.take(i - start)),
            value == digits_value(digits.take(i - start)),
            value <= u32::MAX,
        decreases to - i,
    {
        let c = chars[i];
        if !('0' <= c && c <= '9') {
            assert(!is_digit(digits[i - start]));
            return None;
        }
        let d: u64 = (c as u32 - '0' as u32) as u64;
        let ghost next = digits.take(i - start + 1);
        assert(next.drop_last() =~= digits.take(i - start));
        assert(all_digits(next)) by {
            assert forall|j: int| 0 <= j < next.len() implies is_digit(#[trigger] next[j]) by {
                if j < i - start {
                    assert(next[j] == digits.take(i - start)[j]);
                }
            }
        }
        value = value * 10 + d;
        if value > u32::MAX as u64 {
            proof {
                lemma_digits_value_grows(digits, i - start + 1);
            }
            return None;
        }
        i += 1;
    }
    assert(digits.take(to - start) =~= digits);
    Some(value as u32)
}

impl ParseError {
    /// A few words that name the fault.
    pub fn message(&self) -> (r: String)
        ensures
            r@ == match *self {
                ParseError::InvalidPercentage => "invalid percentage"@,
                ParseError::BadFormat => "bad format"@,
                ParseError::InvalidWidth => "invalid width"@,
                ParseError::InvalidHeight => "invalid height"@,
                ParseError::InvalidDimensions => "invalid dimensions"@,
            },
    {
        match self {
            ParseError::InvalidPercentage => String::from_str("invalid percentage"),
            ParseError::BadFormat => String::from_str("bad format"),
            ParseError::InvalidWidth => String::from_str("invalid width"),
            ParseError::InvalidHeight => String::from_str("invalid height"),
            ParseError::InvalidDimensions => String::from_str("invalid dimensions"),
        }
    }
}

impl ResizeSpec {
    /// Reads a resize specification.
    pub fn parse(text: &str) -> (r: Result<ResizeSpec, ParseError>)
        ensures
            match r {
                Ok(spec) => parse_spec(text@) == Ok::<ResizeSpecView, ParseError>(spec@),
                Err(e) => parse_spec(text@) == Err::<ResizeSpecView, ParseError>(e),
            },
    {
        let chars = chars_of(text);
        let n: usize = chars.len();
        if n > 0 && chars[n - 1] == '%' {
            let number = text.substring_char(0, n - 1);
            return Ok(ResizeSpec::Percent(String::from_str(number)));
        }
        let mut at: usize = 0;
        while at < n && chars[at] != 'x'
            invariant
                at <= n,
                n == chars.len(),
                forall|j: int| 0 <= j < at ==> chars@[j] != 'x',
            decreases n - at,
        {
            at += 1;
        }
        if at == n {
            return Err(ParseError::BadFormat);
        }
        let mut rest: usize = at + 1;
        while rest < n && chars[rest] != 'x'
            invariant
                at < rest <= n,
                n == chars.len(),
                forall|j: int| at < j < rest ==> chars@[j] != 'x',
            decreases n - rest,
        {
            rest += 1;
        }
        if rest < n {
            assert(text@[at as int] == 'x' && text@[rest as int] == 'x');
            return Err(ParseError::BadFormat);
        }
        assert(sole_separator(text@, at as int));
        if at == 0 || at + 1 == n {
            return Err(ParseError::BadFormat);
        }
        let width = match parse_u32(&chars, 0, at) {
            Some(width) => width,
            None => {
                return Err(ParseError::InvalidWidth);
            },
        };
        let height = match parse_u32(&chars, at + 1, n) {
            Some(height) => height,
            None => {
                return Err(ParseError::InvalidHeight);
            },
        };
        Ok(ResizeSpec::Exact(width, height))
    }

    /// The dimensions to resize to.
    ///
    /// For a percentage, `scaled` holds the source dimensions scaled by it
    /// and rounded to whole pixels, or `None` where the number before the
    /// percent sign could not be read. For literal dimensions `scaled` is
    /// not looked at.
    pub fn target(&self, scaled: Option<(u32, u32)>) -> (r: Result<ResizeTarget, ParseError>)
        ensures
            match r {
                Ok(t) => target_spec(self@, scaled) == Ok::<(u32, u32), ParseError>(t@),
                Err(e) => target_spec(self@, scaled) == Err::<(u32, u32), ParseError>(e),
            },
    {
        let dimensions = match self {
            ResizeSpec::Percent(_) => scaled,
            ResizeSpec::Exact(width, height) => Some((*width, *height)),
        };
        match dimensions {
            None => Err(ParseError::InvalidPercentage),
            Some((width, height)) => ResizeTarget::new(width, height),
        }
    }
}

impl View for ResizeTarget {
    type V = (u32, u32);

    closed spec fn view(&self) -> (u32, u32) {
        (self.width, self.height)
    }
}

impl ResizeTarget {
    #[verifier::type_invariant]
    spec fn positive(self) -> bool {
        self.width >= 1 && self.height >= 1
    }

    /// A target of `width` by `height` pixels, where both are positive.
    pub fn new(width: u32, height: u32) -> (r: Result<ResizeTarget, ParseError>)
        ensures
            match r {
                Ok(t) => t@ == (width, height) && width >= 1 && height >= 1,
                Err(e) => e == ParseError::InvalidDimensions && (width == 0 || height == 0),
            },
    {
        if width >= 1 && height >= 1 {
            Ok(ResizeTarget { width, height })
        } else {
            Err(ParseError::InvalidDimensions)
        }
    }

    /// The width in pixels.
    pub fn width(&self) -> (w: u32)
        ensures
            w == self@.0,
            w >= 1,
    {
        proof {
            use_type_invariant(self);
        }
        self.width
    }

    /// The height in pixels.
    pub fn height(&self) -> (h: u32)
        ensures
            h == self@.1,
            h >= 1,
    {
        proof {
            use_type_invariant(self);
        }
        self.height
    }
}

} // verus!
