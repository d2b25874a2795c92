//! Addresses as text, in the four bases in which integers are written.
//!
//! The digits come from the standard library's integer formatting. Verus
//! does not look into it, so each rendering has a name here, and the
//! contracts of the address types say which rendering a text is.

use vstd::prelude::*;

verus! {

/// The digits of `value` in base 16 with `a` to `f`, without prefix or
/// padding: the text that `{:x}` formats.
pub uninterp spec fn lower_hex_text(value: u64) -> Seq<char>;

/// The digits of `value` in base 16 with `A` to `F`, without prefix or
/// padding: the text that `{:X}` formats.
pub uninterp spec fn upper_hex_text(value: u64) -> Seq<char>;

/// The digits of `value` in base 8, without prefix or padding: the text that
/// `{:o}` formats.
pub uninterp spec fn octal_text(value: u64) -> Seq<char>;

/// The digits of `value` in base 2, without prefix or padding: the text that
/// `{:b}` formats.
pub uninterp spec fn binary_text(value: u64) -> Seq<char>;

/// `core::fmt::LowerHex` for `u64`, through `format!`. The text depends on
/// `value` alone; the contract gives it its name.
#[verifier::external_body]
pub(crate) fn lower_hex(value: u64) -> (text: String)
    ensures
        text@ == lower_hex_text(value),
{
    format!("{:x}", value)
}

/// `core::fmt::UpperHex` for `u64`, through `format!`. The text depends on
/// `value` alone; the contract gives it its name.
#[verifier::external_body]
pub(crate) fn upper_hex(value: u64) -> (text: String)
    ensures
        text@ == upper_hex_text(value),
{
    format!("{:X}", value)
}

/// `core::fmt::Octal` for `u64`, through `format!`. The text depends on
/// `value` alone; the contract gives it its name.
#[verifier::external_body]
pub(crate) fn octal(value: u64) -> (text: String)
    ensures
        text@ == octal_text(value),
{
    format!("{:o}", value)
}

/// `core::fmt::Binary` for `u64`, through `format!`. The text depends on
/// `value` alone; the contract gives it its name.
#[verifier::external_body]
pub(crate) fn binary(value: u64) -> (text: String)
    ensures
        text@ == binary_text(value),
{
    format!("{:b}", value)
}

/// The text `name(0x…)`, with the digits of `value` in lower-case base 16
/// between the brackets.
pub open spec fn tagged_hex_text(name: Seq<char>, value: u64) -> Seq<char> {
    name + "(0x"@ + lower_hex_text(value) + ")"@
}

/// Writes `value` as `name(0x…)`: the form in which an address shows itself
/// in a log or a failed assertion.
pub(crate) fn tagged_hex(name: &str, value: u64) -> (text: String)
    ensures
        text@ == tagged_hex_text(name@, value),
{
    let mut text = String::from_str(name);
    let digits = lower_hex(value);
    text.append("(0x");
    text.append(digits.as_str());
    text.append(")");
    text
}

} // verus!
