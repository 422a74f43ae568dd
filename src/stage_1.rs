use crate::firmware::{FirmwareCall, FirmwareReply};
use crate::layout::{stage_2_packet, stage_2_request, STACK_TOP};
use crate::machine::{Action, Message, RealModeState};
use vstd::prelude::*;

verus! {

/// Where the first stage stands in its load sequence.
#[derive(Clone, Copy, Debug, PartialEq, Eq, Structural)]
pub enum Phase {
    /// The installation check has been issued.
    AwaitingExtensionCheck,
    /// The extended read of the second stage has been issued.
    AwaitingStage2Load,
    /// A failure was reported; the machine is halted.
    Halted,
    /// Control has passed to the second stage.
    InStage2,
}

/// The first stage's state between firmware calls.
#[derive(Clone, Copy, Debug, PartialEq, Eq, Structural)]
pub struct Stage1 {
    pub phase: Phase,
    /// The boot drive, as the firmware reported it at entry.
    pub drive: u8,
    /// The registers that the prologue established.
    pub regs: RealModeState,
}

/// The registers after the entry prologue: the stack pointer set to its
/// fixed top, then every segment register zeroed, whatever they held before.
pub open spec fn prologue(regs: RealModeState) -> RealModeState {
    RealModeState { sp: STACK_TOP, ds: 0, es: 0, fs: 0, gs: 0, ss: 0 }
}

/// The state and first request right after entry: the drive is captured and
/// the disk extensions are checked on it.
pub open spec fn entry_state(regs: RealModeState, drive: u8) -> (Stage1, Action) {
    (
        Stage1 { phase: Phase::AwaitingExtensionCheck, drive, regs: prologue(regs) },
        Action::Invoke(FirmwareCall::ExtensionCheck { drive }),
    )
}

/// One decision of the first stage: the next state and action once `reply`
/// comes back. A reply that answers no pending call changes nothing.
pub open spec fn stage_1_step(state: Stage1, reply: FirmwareReply) -> (Stage1, Action) {
    match state.phase {
        Phase::AwaitingExtensionCheck => match reply {
            FirmwareReply::ExtensionCheck { carry } => if carry {
                (Stage1 { phase: Phase::Halted, ..state }, Action::Halt(Message::ExtensionUnsupported))
            } else {
                (
                    Stage1 { phase: Phase::AwaitingStage2Load, ..state },
                    Action::Invoke(
                        FirmwareCall::ExtendedRead { drive: state.drive, packet: stage_2_request() },
                    ),
                )
            },
            _ => (state, Action::Idle),
        },
        Phase::AwaitingStage2Load => match reply {
            FirmwareReply::ExtendedRead { status } => if status != 0 {
                (Stage1 { phase: Phase::Halted, ..state }, Action::Halt(Message::LoadFailed))
            } else {
                (Stage1 { phase: Phase::InStage2, ..state }, Action::EnterStage2(state.regs))
            },
            _ => (state, Action::Idle),
        },
        _ => (state, Action::Idle),
    }
}

/// Entry of the first stage, with the registers as the firmware left them
/// and the boot drive it reported. Runs the prologue and issues the
/// installation check.
pub fn entry(regs: RealModeState, drive: u8) -> (r: (Stage1, Action))
    ensures
        r == entry_state(regs, drive),
{
    let ready = RealModeState { sp: STACK_TOP, ds: 0, es: 0, fs: 0, gs: 0, ss: 0 };
    (
        Stage1 { phase: Phase::AwaitingExtensionCheck, drive, regs: ready },
        Action::Invoke(FirmwareCall::ExtensionCheck { drive }),
    )
}

/// The first stage's decision on a firmware reply: halt with a diagnostic
/// when the extensions are missing or the read fails, request the second
/// stage when the extensions are there, and jump to it once it is loaded.
pub fn stage_1_main(state: Stage1, reply: FirmwareReply) -> (r: (Stage1, Action))
    ensures
        r == stage_1_step(state, reply),
{
    match state.phase {
        Phase::AwaitingExtensionCheck => match reply {
            FirmwareReply::ExtensionCheck { carry } => {
                if carry {
                    (
                        Stage1 { phase: Phase::Halted, ..state },
                        Action::Halt(Message::ExtensionUnsupported),
                    )
                } else {
                    let packet = stage_2_packet();
                    (
                        Stage1 { phase: Phase::AwaitingStage2Load, ..state },
                        Action::Invoke(FirmwareCall::ExtendedRead { drive: state.drive, packet }),
                    )
                }
            },
            _ => (state, Action::Idle),
        },
        Phase::AwaitingStage2Load => match reply {
            FirmwareReply::ExtendedRead { status } => {
                if status != 0 {
                    (Stage1 { phase: Phase::Halted, ..state }, Action::Halt(Message::LoadFailed))
                } else {
                    (Stage1 { phase: Phase::InStage2, ..state }, Action::EnterStage2(state.regs))
                }
            },
            _ => (state, Action::Idle),
        },
        _ => (state, Action::Idle),
    }
}

/// For every boot drive and whatever registers the firmware left: when the
/// installation check and the extended read both succeed, the drive is
/// passed unchanged to both disk calls, the second stage is requested from
/// the fixed location, and control reaches the second stage once, with the
/// stack pointer and segment registers exactly as the prologue set them.
/// After that no reply leads to any further action.
pub proof fn lemma_successful_boot(regs: RealModeState, drive: u8, later: FirmwareReply)
    ensures
        ({
            let (s1, a1) = entry_state(regs, drive);
            let (s2, a2) = stage_1_step(s1, FirmwareReply::ExtensionCheck { carry: false });
            let (s3, a3) = stage_1_step(s2, FirmwareReply::ExtendedRead { status: 0 });
            &&& a1 == Action::Invoke(FirmwareCall::ExtensionCheck { drive })
            &&& a2 == Action::Invoke(
                FirmwareCall::ExtendedRead { drive, packet: stage_2_request() },
            )
            &&& a3 == Action::EnterStage2(prologue(regs))
            &&& prologue(regs).sp == STACK_TOP
            &&& prologue(regs).ds == 0 && prologue(regs).es == 0 && prologue(regs).fs == 0
            &&& prologue(regs).gs == 0 && prologue(regs).ss == 0
            &&& s3.phase == Phase::InStage2
            &&& stage_1_step(s3, later) == (s3, Action::Idle)
        }),
{
}

/// Each failure is final: once halted, the first stage does nothing more,
/// whatever reply comes.
pub proof fn lemma_halt_is_final(state: Stage1, reply: FirmwareReply)
    requires
        state.phase == Phase::Halted,
    ensures
        stage_1_step(state, reply) == (state, Action::Idle),
{
}

} // verus!
