use crate::firmware::FirmwareCall;
use vstd::prelude::*;
use vstd::string::StringSliceAdditionalSpecFns;

verus! {

/// The registers that the first stage sets up and hands on to the second:
/// the stack pointer and the segment registers.
#[derive(Clone, Copy, Debug, PartialEq, Eq, Structural)]
pub struct RealModeState {
    pub sp: u16,
    pub ds: u16,
    pub es: u16,
    pub fs: u16,
    pub gs: u16,
    pub ss: u16,
}

/// The fixed diagnostic and greeting texts of the boot stages.
#[derive(Clone, Copy, Debug, PartialEq, Eq, Structural)]
pub enum Message {
    /// The firmware has no disk extensions.
    ExtensionUnsupported,
    /// The extended read of the second stage failed.
    LoadFailed,
    /// The second stage's greeting.
    Greeting,
}

/// The bytes of each message.
pub open spec fn message_text(m: Message) -> Seq<u8> {
    match m {
        Message::ExtensionUnsupported => "BIOS Ext Not Supported".spec_bytes(),
        Message::LoadFailed => "Rest of Btl Load Failed".spec_bytes(),
        Message::Greeting => "Hello from stage 2!".spec_bytes(),
    }
}

impl Message {
    /// The bytes to print for this message.
    pub fn text(&self) -> (r: &'static [u8])
        ensures
            r@ == message_text(*self),
    {
        match *self {
            Message::ExtensionUnsupported => "BIOS Ext Not Supported".as_bytes(),
            Message::LoadFailed => "Rest of Btl Load Failed".as_bytes(),
            Message::Greeting => "Hello from stage 2!".as_bytes(),
        }
    }
}

/// What a boot stage asks of the code that runs it.
#[derive(Clone, Copy, Debug, PartialEq, Eq, Structural)]
pub enum Action {
    /// Make this firmware call and hand back its reply.
    Invoke(FirmwareCall),
    /// Print the message, then mask interrupts and halt for good.
    Halt(Message),
    /// Jump to the second stage's entry point with these registers; control
    /// never comes back.
    EnterStage2(RealModeState),
    /// Nothing is left to do.
    Idle,
}

} // verus!
