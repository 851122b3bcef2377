//! Literals in generated source text: decimal numbers and quoted strings.

use vstd::prelude::*;
use vstd::string::*;

verus! {

/// One decimal digit.
pub open spec fn digit_text(d: nat) -> Seq<char> {
    if d == 0 {
        "0"@
    } else if d == 1 {
        "1"@
    } else if d == 2 {
        "2"@
    } else if d == 3 {
        "3"@
    } else if d == 4 {
        "4"@
    } else if d == 5 {
        "5"@
    } else if d == 6 {
        "6"@
    } else if d == 7 {
        "7"@
    } else if d == 8 {
        "8"@
    } else {
        "9"@
    }
}

/// A number in decimal, without leading zeros.
pub open spec fn decimal_text(n: nat) -> Seq<char>
    decreases n,
{
    if n < 10 {
        digit_text(n)
    } else {
        decimal_text(n / 10) + digit_text(n % 10)
    }
}

/// Gives [`digit_text`].
fn digit(d: u64) -> (r: &'static str)
    requires
        d < 10,
    ensures
        r@ == digit_text(d as nat),
{
    if d == 0 {
        "0"
    } else if d == 1 {
        "1"
    } else if d == 2 {
        "2"
    } else if d == 3 {
        "3"
    } else if d == 4 {
        "4"
    } else if d == 5 {
        "5"
    } else if d == 6 {
        "6"
    } else if d == 7 {
        "7"
    } else if d == 8 {
        "8"
    } else {
        "9"
    }
}

/// Writes a number in decimal.
pub fn decimal(n: u64) -> (r: String)
    ensures
        r@ == decimal_text(n as nat),
{
    let mut out = digit(n % 10).to_owned();
    let mut rest = n / 10;
    while rest > 0
        invariant
            decimal_text(n as nat) == if rest == 0 {
                out@
            } else {
                decimal_text(rest as nat) + out@
            },
        decreases rest,
    {
        let ghost low = out@;
        let mut longer = digit(rest % 10).to_owned();
        longer.append(out.as_str());
        out = longer;
        proof {
            if rest >= 10 {
                assert(decimal_text((rest / 10) as nat) + out@ =~= decimal_text(rest as nat) + low);
            }
        }
        rest = rest / 10;
    }
    out
}

/// A character as it stands inside a string literal: a double quote and a
/// backslash behind a backslash; a line feed, a carriage return, a tab and
/// the null character as their escapes; every other character as it is.
pub open spec fn escaped_char(c: char) -> Seq<char> {
    if c == '"' || c == '\\' {
        "\\"@ + seq![c]
    } else if c == '\n' {
        "\\n"@
    } else if c == '\r' {
        "\\r"@
    } else if c == '\t' {
        "\\t"@
    } else if c == '\0' {
        "\\0"@
    } else {
        seq![c]
    }
}

/// The first `count` characters of a text, escaped.
pub open spec fn escaped_text(text: Seq<char>, count: nat) -> Seq<char>
    decreases count,
{
    if count == 0 || count > text.len() {
        Seq::empty()
    } else {
        escaped_text(text, (count - 1) as nat) + escaped_char(text[count - 1])
    }
}

/// A text as a string literal: escaped, between double quotes.
pub open spec fn quoted_text(text: Seq<char>) -> Seq<char> {
    "\""@ + escaped_text(text, text.len()) + "\""@
}

/// Writes a text as a string literal.
pub fn quoted(text: &str) -> (r: String)
    ensures
        r@ == quoted_text(text@),
{
    let n = text.unicode_len();
    let mut body = String::new();
    let mut i: usize = 0;
    while i < n
        invariant
            i <= n,
            n == text@.len(),
            body@ == escaped_text(text@, i as nat),
        decreases n - i,
    {
        let ghost before = body@;
        let c = text.get_char(i);
        if c == '\n' {
            body.append("\\n");
        } else if c == '\r' {
            body.append("\\r");
        } else if c == '\t' {
            body.append("\\t");
        } else if c == '\0' {
            body.append("\\0");
        } else {
            if c == '"' || c == '\\' {
                body.append("\\");
            }
            body.append(text.substring_char(i, i + 1));
        }
        proof {
            assert(text@.subrange(i as int, i + 1) =~= seq![c]);
            assert(body@ =~= before + escaped_char(c));
        }
        i = i + 1;
    }
    let mut out = "\"".to_owned();
    out.append(body.as_str());
    out.append("\"");
    out
}

} // verus!
