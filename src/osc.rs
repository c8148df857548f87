//! Outbound OSC messages.
use vstd::prelude::*;
use crate::error::SessionError;

verus! {

/// Address pattern of the connection status message (one boolean argument).
pub const HR_CONNECTED_ADDRESS: &'static str = "/avatar/parameters/hr_connected";

/// Address pattern of the heart-rate percentage message (one float argument).
pub const HR_PERCENT_ADDRESS: &'static str = "/avatar/parameters/hr_percent";

/// Whether every character of a string is ASCII, so that its UTF-8 bytes are
/// its characters one for one.
pub open spec fn is_ascii(s: Seq<char>) -> bool {
    forall|i: int| 0 <= i < s.len() ==> (s[i] as u32) < 128
}

/// The bytes of an ASCII string.
pub open spec fn ascii_bytes(s: Seq<char>) -> Seq<u8> {
    s.map_values(|c: char| (c as u32) as u8)
}

/// The length of an OSC string of `n` bytes: one terminating zero, then zeros
/// up to a multiple of 4.
pub open spec fn osc_padded_len(n: nat) -> nat {
    if (n + 1) % 4 == 0 {
        n + 1
    } else {
        (n + 1 + (4 - (n + 1) % 4)) as nat
    }
}

/// The OSC form of an ASCII string: its bytes, then one to four zero bytes.
pub open spec fn osc_string(s: Seq<char>) -> Seq<u8> {
    ascii_bytes(s) + Seq::new((osc_padded_len(s.len()) - s.len()) as nat, |i: int| 0u8)
}

/// The OSC binary form of a message with an ASCII address pattern and one
/// boolean argument: the address, the type tags `,T` or `,F` padded to four
/// bytes, and no argument data.
pub open spec fn osc_bool_message(address: Seq<char>, value: bool) -> Seq<u8> {
    osc_string(address) + seq![0x2Cu8, if value { 0x54u8 } else { 0x46u8 }, 0u8, 0u8]
}

#[verifier::external_type_specification]
#[verifier::external_body]
pub struct ExOscError(rosc::OscError);

/// Relies on rosc::encoder::encode, applied to a message of one
/// `OscType::Bool` argument. Encoding into a `Vec` cannot fail, and the bytes
/// are the address, its padding, and the type tags.
#[verifier::external_body]
fn encode_bool_message(address: &str, value: bool) -> (r: Result<Vec<u8>, rosc::OscError>)
    requires
        is_ascii(address@),
    ensures
        r is Ok,
        r matches Ok(bytes) ==> bytes@ == osc_bool_message(address@, value),
{
    let message = rosc::OscMessage { addr: address.to_string(), args: vec![rosc::OscType::Bool(value)] };
    rosc::encoder::encode(&rosc::OscPacket::Message(message))
}

/// Encodes the connection status message. Encoding always succeeds; an
/// encoder error would be a `PublishFailed`.
pub fn encode_connected(connected: bool) -> (r: Result<Vec<u8>, SessionError>)
    ensures
        r is Ok,
        r matches Ok(bytes) ==> bytes@ == osc_bool_message(HR_CONNECTED_ADDRESS@, connected),
{
    proof {
        reveal_strlit("/avatar/parameters/hr_connected");
    }
    assert(is_ascii(HR_CONNECTED_ADDRESS@));
    match encode_bool_message(HR_CONNECTED_ADDRESS, connected) {
        Ok(bytes) => Ok(bytes),
        Err(_) => Err(SessionError::PublishFailed),
    }
}

} // verus!
