use vstd::prelude::*;

use crate::value::{Node, NodeKind};

verus! {

/// What stood at the root of a document in place of a mapping.
#[derive(Debug)]
pub enum Unexpected {
    Bool(bool),
    I64(i64),
    I128(i128),
    U64(u64),
    U128(u128),
    /// A 64-bit float, held as its IEEE-754 bit pattern.
    Float(u64),
    Str(String),
    Unit,
    Sequence,
}

/// The outcome of asking for the mapping at the root of `n`.
pub open spec fn root_outcome(n: Node) -> Result<Vec<(String, Node)>, Unexpected> {
    match n.kind {
        NodeKind::Table(t) => Ok(t),
        NodeKind::Nil => Err(Unexpected::Unit),
        NodeKind::Array(_) => Err(Unexpected::Sequence),
        NodeKind::Boolean(b) => Err(Unexpected::Bool(b)),
        NodeKind::I64(i) => Err(Unexpected::I64(i)),
        NodeKind::I128(i) => Err(Unexpected::I128(i)),
        NodeKind::U64(u) => Err(Unexpected::U64(u)),
        NodeKind::U128(u) => Err(Unexpected::U128(u)),
        NodeKind::Float(f) => Err(Unexpected::Float(f)),
        NodeKind::String(s) => Err(Unexpected::Str(s)),
    }
}

/// The entries of the mapping at the root of a document, or what stood
/// there instead.
pub fn extract_root_table(value: Node) -> (r: Result<Vec<(String, Node)>, Unexpected>)
    ensures
        r == root_outcome(value),
{
    match value.kind {
        NodeKind::Table(map) => Ok(map),
        NodeKind::Nil => Err(Unexpected::Unit),
        NodeKind::Array(_items) => Err(Unexpected::Sequence),
        NodeKind::Boolean(b) => Err(Unexpected::Bool(b)),
        NodeKind::I64(i) => Err(Unexpected::I64(i)),
        NodeKind::I128(i) => Err(Unexpected::I128(i)),
        NodeKind::U64(u) => Err(Unexpected::U64(u)),
        NodeKind::U128(u) => Err(Unexpected::U128(u)),
        NodeKind::Float(f) => Err(Unexpected::Float(f)),
        NodeKind::String(s) => Err(Unexpected::Str(s)),
    }
}

/// The text of one decimal digit.
pub open spec fn digit_text(d: nat) -> Seq<char> {
    if d == 0 {
        "0"@
    } else if d == 1 {
        "1"@
    } else if d == 2 {
        "2"@
    } else if d == 3 {
        "3"@
    } else if d == 4 {
        "4"@
    } else if d == 5 {
        "5"@
    } else if d == 6 {
        "6"@
    } else if d == 7 {
        "7"@
    } else if d == 8 {
        "8"@
    } else {
        "9"@
    }
}

/// The decimal digits of `n`, without leading zeros.
pub open spec fn nat_text(n: nat) -> Seq<char>
    decreases n,
{
    if n < 10 {
        digit_text(n)
    } else {
        nat_text(n / 10) + digit_text(n % 10)
    }
}

/// `n` in decimal, with a leading `-` when negative.
pub open spec fn int_text(n: int) -> Seq<char> {
    if n < 0 {
        "-"@ + nat_text((-n) as nat)
    } else {
        nat_text(n as nat)
    }
}

/// `true` or `false`.
pub open spec fn bool_text(b: bool) -> Seq<char> {
    if b {
        "true"@
    } else {
        "false"@
    }
}

/// The text of `s` as Rust's `Debug` writes a string: quoted and escaped.
pub uninterp spec fn debug_quoted(s: Seq<char>) -> Seq<char>;

/// The message for a root of the given shape; `float_text` is how the float
/// of a `Float` root is written.
pub open spec fn message_text(u: Unexpected, float_text: Seq<char>) -> Seq<char> {
    match u {
        Unexpected::Bool(b) => "unexpected boolean `"@ + bool_text(b) + "`"@,
        Unexpected::I64(i) => "unexpected 64-bit integer `"@ + int_text(i as int) + "`"@,
        Unexpected::I128(i) => "unexpected 128-bit integer `"@ + int_text(i as int) + "`"@,
        Unexpected::U64(u) => "unexpected 64-bit unsigned integer `"@ + int_text(u as int) + "`"@,
        Unexpected::U128(u) => "unexpected 128-bit unsigned integer `"@ + int_text(u as int)
            + "`"@,
        Unexpected::Float(_) => "unexpected floating point `"@ + float_text + "`"@,
        Unexpected::Str(s) => "unexpected string "@ + debug_quoted(s@),
        Unexpected::Unit => "unexpected unit value"@,
        Unexpected::Sequence => "unexpected sequence"@,
    }
}

fn digit_str(d: u128) -> (r: &'static str)
    requires
        d < 10,
    ensures
        r@ == digit_text(d as nat),
{
    if d == 0 {
        "0"
    } else if d == 1 {
        "1"
    } else if d == 2 {
        "2"
    } else if d == 3 {
        "3"
    } else if d == 4 {
        "4"
    } else if d == 5 {
        "5"
    } else if d == 6 {
        "6"
    } else if d == 7 {
        "7"
    } else if d == 8 {
        "8"
    } else {
        "9"
    }
}

fn push_decimal(out: &mut String, n: u128)
    ensures
        final(out)@ == old(out)@ + nat_text(n as nat),
    decreases n,
{
    if n >= 10 {
        push_decimal(out, n / 10);
        out.append(digit_str(n % 10));
        proof {
            assert(old(out)@ + nat_text((n / 10) as nat) + digit_text((n % 10) as nat) == old(out)@
                + nat_text(n as nat));
        }
    } else {
        out.append(digit_str(n));
    }
}

/// Appends `n` in decimal, with a leading `-` when it is negative.
fn push_signed(out: &mut String, n: i128)
    ensures
        final(out)@ == old(out)@ + int_text(n as int),
{
    if n < 0 {
        out.append("-");
        let magnitude: u128 = ((-(n + 1)) as u128) + 1;
        push_decimal(out, magnitude);
        proof {
            assert(old(out)@ + "-"@ + nat_text(magnitude as nat) == old(out)@ + int_text(n as int));
        }
    } else {
        push_decimal(out, n as u128);
    }
}

/// Relies on the `Debug` formatting of `str`: a quoted, escaped copy of `s`.
#[verifier::external_body]
fn debug_text(s: &str) -> (r: String)
    ensures
        r@ == debug_quoted(s@),
{
    format!("{:?}", s)
}

/// The message for a string root, given the string as `Debug` writes it.
pub fn string_root_message(quoted: &str) -> (r: String)
    ensures
        r@ == "unexpected string "@ + quoted@,
{
    let mut out = String::from_str("unexpected string ");
    out.append(quoted);
    out
}

impl Unexpected {
    /// A message that names what stood at the root; `float_text` is how the
    /// float of a `Float` root is written.
    pub fn message(&self, float_text: &str) -> (r: String)
        ensures
            r@ == message_text(*self, float_text@),
    {
        match self {
            Unexpected::Bool(b) => {
                let mut out = String::from_str("unexpected boolean `");
                if *b {
                    out.append("true");
                } else {
                    out.append("false");
                }
                out.append("`");
                out
            },
            Unexpected::I64(i) => {
                let mut out = String::from_str("unexpected 64-bit integer `");
                push_signed(&mut out, *i as i128);
                out.append("`");
                out
            },
            Unexpected::I128(i) => {
                let mut out = String::from_str("unexpected 128-bit integer `");
                push_signed(&mut out, *i);
                out.append("`");
                out
            },
            Unexpected::U64(u) => {
                let mut out = String::from_str("unexpected 64-bit unsigned integer `");
                push_decimal(&mut out, *u as u128);
                out.append("`");
                out
            },
            Unexpected::U128(u) => {
                let mut out = String::from_str("unexpected 128-bit unsigned integer `");
                push_decimal(&mut out, *u);
                out.append("`");
                out
            },
            Unexpected::Float(_) => {
                let mut out = String::from_str("unexpected floating point `");
                out.append(float_text);
                out.append("`");
                out
            },
            Unexpected::Str(s) => {
                let quoted = debug_text(s.as_str());
                string_root_message(quoted.as_str())
            },
            Unexpected::Unit => String::from_str("unexpected unit value"),
            Unexpected::Sequence => String::from_str("unexpected sequence"),
        }
    }
}

} // verus!
