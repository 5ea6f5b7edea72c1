//! The options and event masks of the channel that carries the relay.

use vstd::prelude::*;
use vstd::string::*;

verus! {

/// How a channel translates line ends.
#[derive(Clone, Copy, Debug, PartialEq, Eq, Structural)]
pub enum TranslationMode {
    Binary,
}

/// An option of a channel.
#[derive(Clone, Copy, Debug, PartialEq, Eq, Structural)]
pub enum ChannelOption {
    Blocking(bool),
    TranslationMode(TranslationMode),
}

/// The events of a channel that a handler can ask for, as a set of bits.
#[derive(Clone, Copy, Debug, PartialEq, Eq, Structural)]
pub struct ChannelHandlerMask {
    pub bits: u32,
}

/// The channel has data to read.
pub const TCL_READABLE: u32 = 2;

/// The channel takes data.
pub const TCL_WRITABLE: u32 = 4;

/// The channel is in an exceptional state.
pub const TCL_EXCEPTION: u32 = 8;

/// The name under which the interpreter knows an option.
pub open spec fn option_name(option: ChannelOption) -> Seq<char> {
    match option {
        ChannelOption::Blocking(_) => "-blocking"@,
        ChannelOption::TranslationMode(_) => "-translation"@,
    }
}

/// The value of an option as the interpreter reads it.
pub open spec fn option_value(option: ChannelOption) -> Seq<char> {
    match option {
        ChannelOption::Blocking(true) => "true"@,
        ChannelOption::Blocking(false) => "false"@,
        ChannelOption::TranslationMode(TranslationMode::Binary) => "binary"@,
    }
}

/// The options that a channel to a TCP server is opened with: it does not
/// block, and it passes bytes as they are.
pub fn client_options() -> (options: Vec<ChannelOption>)
    ensures
        options@ == seq![
            ChannelOption::Blocking(false),
            ChannelOption::TranslationMode(TranslationMode::Binary),
        ],
{
    let mut options: Vec<ChannelOption> = Vec::new();
    options.push(ChannelOption::Blocking(false));
    options.push(ChannelOption::TranslationMode(TranslationMode::Binary));
    assert(options@ =~= seq![
        ChannelOption::Blocking(false),
        ChannelOption::TranslationMode(TranslationMode::Binary),
    ]);
    options
}

impl ChannelOption {
    /// The name and the value to set this option with.
    pub fn setting(&self) -> (pair: (String, String))
        ensures
            pair.0@ == option_name(*self),
            pair.1@ == option_value(*self),
    {
        match self {
            ChannelOption::Blocking(value) => {
                let text = if *value {
                    "true"
                } else {
                    "false"
                };
                (String::from_str("-blocking"), String::from_str(text))
            },
            ChannelOption::TranslationMode(mode) => {
                let text = match mode {
                    TranslationMode::Binary => "binary",
                };
                (String::from_str("-translation"), String::from_str(text))
            },
        }
    }
}

impl ChannelHandlerMask {
    /// The mask of a channel that has data to read.
    pub fn readable() -> (mask: ChannelHandlerMask)
        ensures
            mask.bits == TCL_READABLE,
    {
        ChannelHandlerMask { bits: TCL_READABLE }
    }

    /// The mask of a channel that takes data.
    pub fn writable() -> (mask: ChannelHandlerMask)
        ensures
            mask.bits == TCL_WRITABLE,
    {
        ChannelHandlerMask { bits: TCL_WRITABLE }
    }

    /// The mask of a channel in an exceptional state.
    pub fn exception() -> (mask: ChannelHandlerMask)
        ensures
            mask.bits == TCL_EXCEPTION,
    {
        ChannelHandlerMask { bits: TCL_EXCEPTION }
    }

    /// The mask as the interpreter takes it.
    pub fn bits(&self) -> (bits: u32)
        ensures
            bits == self.bits,
    {
        self.bits
    }

    /// The events of either mask.
    pub fn union(self, other: ChannelHandlerMask) -> (mask: ChannelHandlerMask)
        ensures
            mask.bits == self.bits | other.bits,
    {
        ChannelHandlerMask { bits: self.bits | other.bits }
    }

    /// Whether every event of `other` is in this mask.
    pub fn contains(&self, other: ChannelHandlerMask) -> (held: bool)
        ensures
            held == (self.bits & other.bits == other.bits),
    {
        self.bits & other.bits == other.bits
    }
}

} // verus!
