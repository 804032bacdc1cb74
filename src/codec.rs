use vstd::prelude::*;

use crate::error::{error_of, DDCError, DdcutilErrorKind, Result};

verus! {

/// A physical input source of a monitor, with its connector index.
#[derive(Debug, Clone, Copy, PartialEq, Eq, Structural)]
pub enum Input {
    HDMI(u8),
    DP(u8),
    TYPEC(u8),
}

/// The one-byte VCP code of an input source, where it has one.
pub open spec fn input_code(input: Input) -> Option<u8> {
    match input {
        Input::HDMI(1) => Some(0x11u8),
        Input::HDMI(2) => Some(0x12u8),
        Input::DP(1) => Some(0x0fu8),
        Input::DP(2) => Some(0x10u8),
        _ => None,
    }
}

/// The input source that a one-byte VCP code names, where it names one.
pub open spec fn input_of_code(code: u8) -> Option<Input> {
    if code == 0x11 {
        Some(Input::HDMI(1))
    } else if code == 0x12 {
        Some(Input::HDMI(2))
    } else if code == 0x0f {
        Some(Input::DP(1))
    } else if code == 0x10 {
        Some(Input::DP(2))
    } else {
        None
    }
}

impl Input {
    /// The inputs that have a code on the wire.
    pub open spec fn is_encodable(self) -> bool {
        input_code(self) is Some
    }

    /// Encodes the input source as its one-byte VCP value.
    pub fn encode(self) -> (r: Result<u8>)
        ensures
            match input_code(self) {
                Some(c) => r == Ok::<u8, DDCError>(c),
                None => r == Err::<u8, DDCError>(error_of(DdcutilErrorKind::Unsupported)),
            },
    {
        match self {
            Input::HDMI(1) => Ok(0x11),
            Input::HDMI(2) => Ok(0x12),
            Input::DP(1) => Ok(0x0f),
            Input::DP(2) => Ok(0x10),
            _ => Err(DDCError::new(DdcutilErrorKind::Unsupported)),
        }
    }

    /// Decodes a one-byte VCP value into an input source.
    pub fn decode(value: u8) -> (r: Result<Input>)
        ensures
            match input_of_code(value) {
                Some(i) => r == Ok::<Input, DDCError>(i),
                None => r == Err::<Input, DDCError>(error_of(DdcutilErrorKind::Unsupported)),
            },
            r is Err <==> !(value == 0x0f || value == 0x10 || value == 0x11 || value == 0x12),
    {
        match value {
            0x11 => Ok(Input::HDMI(1)),
            0x12 => Ok(Input::HDMI(2)),
            0x0f => Ok(Input::DP(1)),
            0x10 => Ok(Input::DP(2)),
            _ => Err(DDCError::new(DdcutilErrorKind::Unsupported)),
        }
    }
}

/// Decoding the code of an encodable input gives that input back.
pub proof fn lemma_input_round_trip(input: Input)
    requires
        input.is_encodable(),
    ensures
        input_of_code(input_code(input)->Some_0) == Some(input),
{
}

/// Encoding the input that a code names gives that code back.
pub proof fn lemma_code_round_trip(code: u8)
    requires
        input_of_code(code) is Some,
    ensures
        input_code(input_of_code(code)->Some_0) == Some(code),
{
}

/// The high byte of a 16-bit value in big-endian order.
pub open spec fn hi_byte(v: u16) -> u8 {
    (v / 256) as u8
}

/// The low byte of a 16-bit value in big-endian order.
pub open spec fn lo_byte(v: u16) -> u8 {
    (v % 256) as u8
}

/// The 16-bit value of two bytes in big-endian order.
pub open spec fn be_value(hi: u8, lo: u8) -> u16 {
    (hi as int * 256 + lo as int) as u16
}

/// Splits a 16-bit value into its big-endian bytes.
pub fn to_be_bytes(v: u16) -> (r: (u8, u8))
    ensures
        r.0 == hi_byte(v),
        r.1 == lo_byte(v),
        r.0 as int * 256 + r.1 as int == v as int,
{
    ((v / 256) as u8, (v % 256) as u8)
}

/// Joins two bytes in big-endian order into a 16-bit value.
pub fn from_be_bytes(hi: u8, lo: u8) -> (r: u16)
    ensures
        r == be_value(hi, lo),
        r as int == hi as int * 256 + lo as int,
{
    hi as u16 * 256 + lo as u16
}

/// Joining the bytes of a split gives the value back.
pub proof fn lemma_be_round_trip(v: u16)
    ensures
        be_value(hi_byte(v), lo_byte(v)) == v,
{
}

} // verus!
