use vstd::prelude::*;
use vstd::string::StringExecFns;
use heck::{CamelCase, MixedCase, ShoutySnakeCase};

verus! {

/// The words of `s` run together, each starting with a capital letter, as
/// `heck` writes camel case.
pub uninterp spec fn camel_case(s: Seq<char>) -> Seq<char>;

/// The words of `s` run together, each but the first starting with a
/// capital letter, as `heck` writes mixed case.
pub uninterp spec fn mixed_case(s: Seq<char>) -> Seq<char>;

/// The words of `s` in capital letters with underscores between them, as
/// `heck` writes shouty snake case.
pub uninterp spec fn shouty_snake_case(s: Seq<char>) -> Seq<char>;

/// Calls `heck::CamelCase::to_camel_case`, which depends on its argument alone.
#[verifier::external_body]
fn to_camel_case(s: &str) -> (r: String)
    ensures
        r@ == camel_case(s@),
{
    s.to_camel_case()
}

/// Calls `heck::MixedCase::to_mixed_case`, which depends on its argument alone.
#[verifier::external_body]
fn to_mixed_case(s: &str) -> (r: String)
    ensures
        r@ == mixed_case(s@),
{
    s.to_mixed_case()
}

/// Calls `heck::ShoutySnakeCase::to_shouty_snake_case`, which depends on
/// its argument alone.
#[verifier::external_body]
fn to_shouty_snake_case(s: &str) -> (r: String)
    ensures
        r@ == shouty_snake_case(s@),
{
    s.to_shouty_snake_case()
}

/// The name of the enum whose variants are error codes.
pub open spec fn errno_enum_name() -> Seq<char> {
    "errno"@
}

/// The letter put in front of the variants of the enum of error codes.
pub open spec fn errno_variant_prefix() -> Seq<char> {
    "E"@
}

/// The name that a variant gets in the emitted enum, given both spellings
/// of the variant's name: an error code is written `E` and the mixed-case
/// spelling, any other variant in camel case.
pub open spec fn variant_name_spec(enum_name: Seq<char>, camel: Seq<char>, mixed: Seq<char>) -> Seq<
    char,
> {
    if enum_name == errno_enum_name() {
        errno_variant_prefix() + mixed
    } else {
        camel
    }
}

/// Returns the name of a type in the emitted code.
pub fn type_ident(name: &str) -> (r: String)
    ensures
        r@ == camel_case(name@),
{
    to_camel_case(name)
}

/// Returns the name of the constant that stands for a flag.
pub fn flag_member_name(name: &str) -> (r: String)
    ensures
        r@ == shouty_snake_case(name@),
{
    to_shouty_snake_case(name)
}

/// Returns the name of the constant that stands for a named value of a
/// tagged integer.
pub fn int_member_name(name: &str) -> (r: String)
    ensures
        r@ == shouty_snake_case(name@),
{
    to_shouty_snake_case(name)
}

/// Picks the name of a variant from its two spellings.
pub fn pick_variant_name(is_errno: bool, camel: String, mixed: String) -> (r: String)
    ensures
        r@ == (if is_errno {
            errno_variant_prefix() + mixed@
        } else {
            camel@
        }),
{
    if is_errno {
        let prefix = String::from_str("E");
        prefix.concat(mixed.as_str())
    } else {
        camel
    }
}

/// Returns the name that the variant `variant` of the enum `enum_name`
/// gets in the emitted code.
pub fn enum_variant_name(enum_name: &str, variant: &str) -> (r: String)
    ensures
        r@ == variant_name_spec(enum_name@, camel_case(variant@), mixed_case(variant@)),
{
    let errno = String::from_str("errno");
    let this = String::from_str(enum_name);
    let is_errno = this.eq(&errno);
    pick_variant_name(is_errno, to_camel_case(variant), to_mixed_case(variant))
}

} // verus!
