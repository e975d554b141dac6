//! Decoded CAN messages as the adapters read them.

use vstd::prelude::*;
use crate::name_map::NameMap;

verus! {

/// The value of one decoded signal.
#[derive(Clone, Debug, PartialEq)]
pub enum SignalValue {
    /// A physical value: the 64 bits of its IEEE 754 binary64 encoding.
    Number(u64),
    /// A value named by the signal's value table.
    Enumeration(String),
    /// A one-bit signal.
    Boolean(bool),
}

/// When a frame was received.
#[derive(Clone, Copy, Debug, PartialEq, Eq)]
pub struct DecodeContext {
    pub timestamp_ns: Option<u64>,
}

/// A frame decoded against a DBC: the message's name and its signals by name.
#[derive(Clone, Debug)]
pub struct DecodedCanMessage {
    pub message_name: String,
    pub signals: NameMap<SignalValue>,
    pub context: DecodeContext,
}

/// The number carried by signal `name`, if the message has that signal and it
/// is a number.
pub open spec fn number_signal(message: DecodedCanMessage, name: Seq<char>) -> Option<u64> {
    match message.signals@.get(name) {
        Some(SignalValue::Number(bits)) => Some(bits),
        _ => None,
    }
}

/// The value name carried by signal `name`, if the message has that signal
/// and it is an enumeration.
pub open spec fn enumeration_signal(message: DecodedCanMessage, name: Seq<char>) -> Option<Seq<char>> {
    match message.signals@.get(name) {
        Some(SignalValue::Enumeration(text)) => Some(text@),
        _ => None,
    }
}

/// `text == literal`.
pub fn text_is(text: &String, literal: &str) -> (r: bool)
    ensures
        r == (text@ == literal@),
{
    *text == literal.to_owned()
}

} // verus!
