use crate::text::{decimal, push_decimal};
use vstd::prelude::*;
use vstd::string::StringExecFns;
use wayland_client::protocol::wl_shm::Format;

verus! {

/// The name of the `wl_shm` format with the given protocol code, as the
/// derived `Debug` form of `wayland_client`'s format enum spells it; none
/// for a code that the enum does not define.
pub uninterp spec fn shm_format_name(code: u32) -> Option<Seq<char>>;

/// Looks a protocol format code up with `wayland_client`'s
/// `Format::try_from(u32)` and, for a defined code, formats the variant with
/// the enum's derived `Debug`. The contract claims only that the result is
/// the one named `shm_format_name` for the code: the same code always gives
/// the same name, or none. Which name that is is not stated.
#[verifier::external_body]
fn protocol_format_name(code: u32) -> (name: Option<String>)
    ensures
        name.deep_view() == shm_format_name(code),
{
    match Format::try_from(code) {
        Ok(format) => Some(format!("{:?}", format)),
        Err(()) => None,
    }
}

/// The text that stands for a format without a variant of its own, given
/// the protocol's name for its code: that name, or the code itself when the
/// protocol has none.
pub open spec fn other_format_text(code: u32, protocol_name: Option<Seq<char>>) -> Seq<char> {
    match protocol_name {
        Some(name) => name,
        None => "Other("@ + decimal(code as nat) + ")"@,
    }
}

/// Appends the text for a format without a variant of its own, given the
/// protocol's name for its code, if it has one.
pub fn push_other_format_text(out: &mut String, code: u32, protocol_name: Option<String>)
    ensures
        final(out)@ == old(out)@ + other_format_text(code, protocol_name.deep_view()),
{
    match protocol_name {
        Some(name) => out.append(name.as_str()),
        None => {
            out.append("Other(");
            push_decimal(out, code);
            out.append(")");
            assert(out@ =~= old(out)@ + other_format_text(code, None));
        },
    }
}

/// Appends the name of the format with the given code: the protocol's name
/// for it, or the code itself when the protocol has none.
pub fn push_format_code_name(out: &mut String, code: u32)
    ensures
        final(out)@ == old(out)@ + other_format_text(code, shm_format_name(code)),
{
    let protocol_name = protocol_format_name(code);
    push_other_format_text(out, code, protocol_name);
}

} // verus!
