//! Pieces of debug text shared by the binding types.
use vstd::prelude::*;
use vstd::string::StringExecFns;

use crate::text::{decimal, push_chars, u128_decimal};

verus! {

/// The debug text of a string: the text `<str as Debug>::fmt` writes, which
/// quotes the string and escapes its special characters.
pub uninterp spec fn debug_str(s: Seq<char>) -> Seq<char>;

/// Debug-formats a string slice (`format!("{:?}", s)`).
#[verifier::external_body]
fn str_debug(s: &str) -> (r: String)
    ensures
        r@ == debug_str(s@),
{
    format!("{:?}", s)
}

/// Appends the debug text of `s`.
pub fn push_str_debug(out: &mut String, s: &str)
    ensures
        final(out)@ == old(out)@ + debug_str(s@),
{
    let d = str_debug(s);
    out.append(d.as_str());
}

/// Appends the decimal text of `n`.
pub fn push_decimal(out: &mut String, n: u128)
    ensures
        final(out)@ == old(out)@ + decimal(n as nat),
{
    let digits = u128_decimal(n);
    push_chars(out, &digits);
}

/// `None` or `Some("..")`
pub open spec fn opt_str_debug(o: &Option<String>) -> Seq<char> {
    match o {
        None => "None"@,
        Some(s) => "Some("@ + debug_str(s@) + ")"@,
    }
}

/// `None` or `Some(<n>)`
pub open spec fn opt_nat_debug(o: Option<nat>) -> Seq<char> {
    match o {
        None => "None"@,
        Some(n) => "Some("@ + decimal(n) + ")"@,
    }
}

/// Debug text of an optional `u8`.
pub open spec fn opt_u8_debug(o: Option<u8>) -> Seq<char> {
    opt_nat_debug(
        match o {
            None => None,
            Some(n) => Some(n as nat),
        },
    )
}

/// Debug text of an optional `u16`.
pub open spec fn opt_u16_debug(o: Option<u16>) -> Seq<char> {
    opt_nat_debug(
        match o {
            None => None,
            Some(n) => Some(n as nat),
        },
    )
}

/// Debug text of an optional `u32`.
pub open spec fn opt_u32_debug(o: Option<u32>) -> Seq<char> {
    opt_nat_debug(
        match o {
            None => None,
            Some(n) => Some(n as nat),
        },
    )
}

/// Debug text of an optional `u64`.
pub open spec fn opt_u64_debug(o: Option<u64>) -> Seq<char> {
    opt_nat_debug(
        match o {
            None => None,
            Some(n) => Some(n as nat),
        },
    )
}

/// Appends `None` or `Some("..")`.
pub fn push_opt_str(out: &mut String, o: &Option<String>)
    ensures
        final(out)@ == old(out)@ + opt_str_debug(o),
{
    match o {
        None => out.append("None"),
        Some(s) => {
            out.append("Some(");
            push_str_debug(out, s.as_str());
            out.append(")");
            assert(out@ =~= old(out)@ + opt_str_debug(o));
        },
    }
}

fn push_opt_nat(out: &mut String, o: Option<u128>)
    ensures
        final(out)@ == old(out)@ + opt_nat_debug(
            match o {
                None => None,
                Some(n) => Some(n as nat),
            },
        ),
{
    match o {
        None => out.append("None"),
        Some(n) => {
            out.append("Some(");
            push_decimal(out, n);
            out.append(")");
            assert(out@ =~= old(out)@ + opt_nat_debug(Some(n as nat)));
        },
    }
}

/// Appends the debug text of an optional `u8`.
pub fn push_opt_u8(out: &mut String, o: Option<u8>)
    ensures
        final(out)@ == old(out)@ + opt_u8_debug(o),
{
    push_opt_nat(
        out,
        match o {
            None => None,
            Some(n) => Some(n as u128),
        },
    );
}

/// Appends the debug text of an optional `u16`.
pub fn push_opt_u16(out: &mut String, o: Option<u16>)
    ensures
        final(out)@ == old(out)@ + opt_u16_debug(o),
{
    push_opt_nat(
        out,
        match o {
            None => None,
            Some(n) => Some(n as u128),
        },
    );
}

/// Appends the debug text of an optional `u32`.
pub fn push_opt_u32(out: &mut String, o: Option<u32>)
    ensures
        final(out)@ == old(out)@ + opt_u32_debug(o),
{
    push_opt_nat(
        out,
        match o {
            None => None,
            Some(n) => Some(n as u128),
        },
    );
}

/// Appends the debug text of an optional `u64`.
pub fn push_opt_u64(out: &mut String, o: Option<u64>)
    ensures
        final(out)@ == old(out)@ + opt_u64_debug(o),
{
    push_opt_nat(
        out,
        match o {
            None => None,
            Some(n) => Some(n as u128),
        },
    );
}

} // verus!
