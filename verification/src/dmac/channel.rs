//! The closed set of hardware channels, the fixed trigger-source codes, and
//! the per-channel event and interrupt selections.

use vstd::prelude::*;

use crate::events;

verus! {

/// One of the twelve DMA channels.
#[derive(Debug, Clone, Copy, PartialEq, Eq, Structural)]
pub enum Channel {
    Channel0,
    Channel1,
    Channel2,
    Channel3,
    Channel4,
    Channel5,
    Channel6,
    Channel7,
    Channel8,
    Channel9,
    Channel10,
    Channel11,
}

impl Channel {
    /// The channel's number.
    pub open spec fn spec_index(self) -> u8 {
        match self {
            Channel::Channel0 => 0,
            Channel::Channel1 => 1,
            Channel::Channel2 => 2,
            Channel::Channel3 => 3,
            Channel::Channel4 => 4,
            Channel::Channel5 => 5,
            Channel::Channel6 => 6,
            Channel::Channel7 => 7,
            Channel::Channel8 => 8,
            Channel::Channel9 => 9,
            Channel::Channel10 => 10,
            Channel::Channel11 => 11,
        }
    }

    pub fn index(self) -> (r: u8)
        ensures
            r == self.spec_index(),
            r < 12,
    {
        match self {
            Channel::Channel0 => 0,
            Channel::Channel1 => 1,
            Channel::Channel2 => 2,
            Channel::Channel3 => 3,
            Channel::Channel4 => 4,
            Channel::Channel5 => 5,
            Channel::Channel6 => 6,
            Channel::Channel7 => 7,
            Channel::Channel8 => 8,
            Channel::Channel9 => 9,
            Channel::Channel10 => 10,
            Channel::Channel11 => 11,
        }
    }

    /// The event-generator identity of this channel. Only channels 0-3 are
    /// wired into the event crossbar, so any other channel is ruled out by
    /// precondition.
    pub fn event_generator(&self) -> (r: events::Generator)
        requires
            self.spec_index() < 4,
        ensures
            r == (match *self {
                Channel::Channel0 => events::Generator::DmacCh0,
                Channel::Channel1 => events::Generator::DmacCh1,
                Channel::Channel2 => events::Generator::DmacCh2,
                _ => events::Generator::DmacCh3,
            }),
    {
        match self {
            Channel::Channel0 => events::Generator::DmacCh0,
            Channel::Channel1 => events::Generator::DmacCh1,
            Channel::Channel2 => events::Generator::DmacCh2,
            _ => events::Generator::DmacCh3,
        }
    }

    /// The event-user identity of this channel. Only channels 0-3 are wired
    /// into the event crossbar, so any other channel is ruled out by
    /// precondition.
    pub fn event_user(&self) -> (r: events::User)
        requires
            self.spec_index() < 4,
        ensures
            r == (match *self {
                Channel::Channel0 => events::User::DmacCh0,
                Channel::Channel1 => events::User::DmacCh1,
                Channel::Channel2 => events::User::DmacCh2,
                _ => events::User::DmacCh3,
            }),
    {
        match self {
            Channel::Channel0 => events::User::DmacCh0,
            Channel::Channel1 => events::User::DmacCh1,
            Channel::Channel2 => events::User::DmacCh2,
            _ => events::User::DmacCh3,
        }
    }
}

/// The hardware line that starts a channel's next transfer, with its fixed
/// per-part numeric code.
#[derive(Debug, Clone, Copy, PartialEq, Eq, Structural)]
pub enum TriggerSource {
    /// Software triggered only.
    Software,
    Sercom0Rx,
    Sercom0Tx,
    Sercom1Rx,
    Sercom1Tx,
    Sercom2Rx,
    Sercom2Tx,
    Sercom3Rx,
    Sercom3Tx,
    Sercom4Rx,
    Sercom4Tx,
    Sercom5Rx,
    Sercom5Tx,
    /// Timer/counter 3 overflow.
    Tc3Ovf,
    Tc4Ovf,
    /// Converter result ready.
    AdcResultReady,
}

impl TriggerSource {
    /// The fixed trigger-source code of this line.
    pub open spec fn spec_code(self) -> u8 {
        match self {
            TriggerSource::Software => 0x0,
            TriggerSource::Sercom0Rx => 0x1,
            TriggerSource::Sercom0Tx => 0x2,
            TriggerSource::Sercom1Rx => 0x3,
            TriggerSource::Sercom1Tx => 0x4,
            TriggerSource::Sercom2Rx => 0x5,
            TriggerSource::Sercom2Tx => 0x6,
            TriggerSource::Sercom3Rx => 0x7,
            TriggerSource::Sercom3Tx => 0x8,
            TriggerSource::Sercom4Rx => 0x9,
            TriggerSource::Sercom4Tx => 0xa,
            TriggerSource::Sercom5Rx => 0xb,
            TriggerSource::Sercom5Tx => 0xc,
            TriggerSource::Tc3Ovf => 0x18,
            TriggerSource::Tc4Ovf => 0x1b,
            TriggerSource::AdcResultReady => 0x27,
        }
    }

    pub fn code(self) -> (r: u8)
        ensures
            r == self.spec_code(),
    {
        match self {
            TriggerSource::Software => 0x0,
            TriggerSource::Sercom0Rx => 0x1,
            TriggerSource::Sercom0Tx => 0x2,
            TriggerSource::Sercom1Rx => 0x3,
            TriggerSource::Sercom1Tx => 0x4,
            TriggerSource::Sercom2Rx => 0x5,
            TriggerSource::Sercom2Tx => 0x6,
            TriggerSource::Sercom3Rx => 0x7,
            TriggerSource::Sercom3Tx => 0x8,
            TriggerSource::Sercom4Rx => 0x9,
            TriggerSource::Sercom4Tx => 0xa,
            TriggerSource::Sercom5Rx => 0xb,
            TriggerSource::Sercom5Tx => 0xc,
            TriggerSource::Tc3Ovf => 0x18,
            TriggerSource::Tc4Ovf => 0x1b,
            TriggerSource::AdcResultReady => 0x27,
        }
    }
}

/// What the channel does when its trigger fires.
#[derive(Debug, Clone, Copy, PartialEq, Eq, Structural)]
pub enum Action {
    /// Transfer one block per trigger.
    Block,
    /// Transfer one beat per trigger.
    Beat,
    /// Transfer the whole transaction per trigger.
    Transaction,
}

impl Action {
    pub open spec fn spec_code(self) -> u8 {
        match self {
            Action::Block => 0,
            Action::Beat => 2,
            Action::Transaction => 3,
        }
    }

    pub fn code(self) -> (r: u8)
        ensures
            r == self.spec_code(),
    {
        match self {
            Action::Block => 0,
            Action::Beat => 2,
            Action::Transaction => 3,
        }
    }
}

/// What an input event makes the channel do.
#[derive(Debug, Clone, Copy, PartialEq, Eq, Structural)]
pub enum EventInputAction {
    NoAct,
    Trig,
    CTrig,
    CBlock,
    Suspend,
    Resume,
    SSkip,
}

impl EventInputAction {
    pub open spec fn spec_code(self) -> u8 {
        match self {
            EventInputAction::NoAct => 0,
            EventInputAction::Trig => 1,
            EventInputAction::CTrig => 2,
            EventInputAction::CBlock => 3,
            EventInputAction::Suspend => 4,
            EventInputAction::Resume => 5,
            EventInputAction::SSkip => 6,
        }
    }

    pub fn code(self) -> (r: u8)
        ensures
            r == self.spec_code(),
    {
        match self {
            EventInputAction::NoAct => 0,
            EventInputAction::Trig => 1,
            EventInputAction::CTrig => 2,
            EventInputAction::CBlock => 3,
            EventInputAction::Suspend => 4,
            EventInputAction::Resume => 5,
            EventInputAction::SSkip => 6,
        }
    }
}

/// The event wiring requested for a channel: whether it emits an output
/// event, and what an input event makes it do, if anything.
#[derive(Debug, Clone, Copy, PartialEq, Eq, Structural)]
pub struct Events {
    pub output: bool,
    pub input: Option<EventInputAction>,
}

/// The interrupt sources to arm for a channel.
#[derive(Debug, Clone, Copy, PartialEq, Eq, Structural)]
pub struct Interrupts {
    pub suspend: bool,
    pub transfer_complete: bool,
    pub transfer_error: bool,
}

} // verus!
