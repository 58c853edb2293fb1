//! Reading the clock without tearing, as a machine that the caller drives.
//!
//! The clock updates itself once a second, and a read that straddles an
//! update gives fields of two different moments. The reader therefore
//! captures the six clock registers again and again until two captures in a
//! row agree, and only then decodes them.
//!
//! The reader performs no transfer itself. It names the register to read
//! next ([`RtcReader::pending`]), the caller reads it and hands the byte back
//! ([`RtcReader::supply`]), until the reader holds the result
//! ([`RtcReader::date_time`]). The caller must own the two ports for the
//! whole read, so that no other access comes between.

use vstd::prelude::*;
use crate::datetime::RTCDateTime;
use crate::decode::{decode, CMOSCenturyHandler, RawClock};
use crate::registers::{
    get_update_in_progress_flag, update_in_progress, DAY, HOUR, MINUTE, MONTH, SECOND, STATUS_A,
    STATUS_B, YEAR,
};

verus! {

/// Where a read stands: the register whose byte is awaited.
#[derive(Debug, Clone, Copy, PartialEq, Eq, Structural)]
pub enum Stage {
    /// Status register A, waiting for an update of the clock to begin.
    AwaitUpdate,
    /// Status register A, at the head of a capture pass.
    Status,
    /// The seconds.
    Second,
    /// The minutes.
    Minute,
    /// The hours.
    Hour,
    /// The day of the month.
    Day,
    /// The month.
    Month,
    /// The two-digit year.
    Year,
    /// The century register of this number.
    Century(u8),
    /// Status register B, after the captures have agreed.
    Format,
    /// Nothing: the read is over and gave this date and time.
    Finished(RTCDateTime),
}

/// The state of a read.
#[derive(Debug, Clone, Copy, PartialEq, Eq, Structural)]
pub struct ReaderState {
    /// How the century is found.
    pub handler: CMOSCenturyHandler,
    /// The register whose byte is awaited.
    pub stage: Stage,
    /// False during the first capture; true once captures are compared.
    pub settling: bool,
    /// The capture being filled.
    pub current: RawClock,
    /// The capture saved at the start of the pass, to compare against.
    pub last: RawClock,
}

impl ReaderState {
    /// The state in which a read begins: at the head of the first capture
    /// pass, with nothing captured.
    pub open spec fn start(handler: CMOSCenturyHandler) -> ReaderState {
        ReaderState {
            handler,
            stage: Stage::Status,
            settling: false,
            current: RawClock::zero(),
            last: RawClock::zero(),
        }
    }

    /// The state in which a read begins that first waits for an update of
    /// the clock to begin.
    pub open spec fn start_waiting(handler: CMOSCenturyHandler) -> ReaderState {
        ReaderState { stage: Stage::AwaitUpdate, ..ReaderState::start(handler) }
    }

    /// The register to read next; `None` once the read is over.
    pub open spec fn pending(self) -> Option<u8> {
        match self.stage {
            Stage::AwaitUpdate => Some(STATUS_A),
            Stage::Status => Some(STATUS_A),
            Stage::Second => Some(SECOND),
            Stage::Minute => Some(MINUTE),
            Stage::Hour => Some(HOUR),
            Stage::Day => Some(DAY),
            Stage::Month => Some(MONTH),
            Stage::Year => Some(YEAR),
            Stage::Century(reg) => Some(reg),
            Stage::Format => Some(STATUS_B),
            Stage::Finished(_) => None,
        }
    }

    /// The result of the read; `None` while it is under way.
    pub open spec fn date_time(self) -> Option<RTCDateTime> {
        match self.stage {
            Stage::Finished(datetime) => Some(datetime),
            _ => None,
        }
    }

    /// The state in which a pass of comparison begins: the capture at hand
    /// is saved, and status register A is polled.
    pub open spec fn begin_settling(self) -> ReaderState {
        ReaderState { stage: Stage::Status, settling: true, last: self.current, ..self }
    }

    /// The state after a capture pass has ended, that is after status
    /// register A showed no update in progress.
    ///
    /// After the first pass the century register is read, if one is used, and
    /// comparison begins. After a pass of comparison the read goes on to the
    /// format flags if the capture equals the one saved before the pass, and
    /// begins another pass if it does not.
    pub open spec fn end_pass(self) -> ReaderState {
        if !self.settling {
            match self.handler {
                CMOSCenturyHandler::CenturyRegister(reg) => ReaderState {
                    stage: Stage::Century(reg),
                    ..self
                },
                CMOSCenturyHandler::CurrentYear(_) => self.begin_settling(),
            }
        } else if self.last == self.current {
            ReaderState { stage: Stage::Format, ..self }
        } else {
            self.begin_settling()
        }
    }

    /// The state after the byte `reply` has been read from the pending register.
    /// A read that is over stays as it is.
    pub open spec fn supply(self, reply: u8) -> ReaderState {
        match self.stage {
            Stage::AwaitUpdate => if update_in_progress(reply) {
                ReaderState { stage: Stage::Status, ..self }
            } else {
                self
            },
            Stage::Status => if update_in_progress(reply) {
                ReaderState { stage: Stage::Second, ..self }
            } else {
                self.end_pass()
            },
            Stage::Second => ReaderState {
                stage: Stage::Minute,
                current: RawClock { second: reply, ..self.current },
                ..self
            },
            Stage::Minute => ReaderState {
                stage: Stage::Hour,
                current: RawClock { minute: reply, ..self.current },
                ..self
            },
            Stage::Hour => ReaderState {
                stage: Stage::Day,
                current: RawClock { hour: reply, ..self.current },
                ..self
            },
            Stage::Day => ReaderState {
                stage: Stage::Month,
                current: RawClock { day: reply, ..self.current },
                ..self
            },
            Stage::Month => ReaderState {
                stage: Stage::Year,
                current: RawClock { month: reply, ..self.current },
                ..self
            },
            Stage::Year => ReaderState {
                stage: Stage::Status,
                current: RawClock { year: reply, ..self.current },
                ..self
            },
            Stage::Century(_) => ReaderState {
                current: RawClock { century: reply, ..self.current },
                ..self
            }.begin_settling(),
            Stage::Format => ReaderState {
                stage: Stage::Finished(self.current.decoded(reply, self.handler)),
                ..self
            },
            Stage::Finished(_) => self,
        }
    }
}

/// A read of the clock under way.
pub struct RtcReader {
    state: ReaderState,
}

impl View for RtcReader {
    type V = ReaderState;

    closed spec fn view(&self) -> ReaderState {
        self.state
    }
}

impl RtcReader {
    #[verifier::type_invariant]
    spec fn well_formed(self) -> bool {
        self.state.handler.representable()
    }

    /// The register to read next; `None` once the read is over.
    pub fn pending(&self) -> (reg: Option<u8>)
        ensures
            reg == self@.pending(),
    {
        match self.state.stage {
            Stage::AwaitUpdate => Some(STATUS_A),
            Stage::Status => Some(STATUS_A),
            Stage::Second => Some(SECOND),
            Stage::Minute => Some(MINUTE),
            Stage::Hour => Some(HOUR),
            Stage::Day => Some(DAY),
            Stage::Month => Some(MONTH),
            Stage::Year => Some(YEAR),
            Stage::Century(reg) => Some(reg),
            Stage::Format => Some(STATUS_B),
            Stage::Finished(_) => None,
        }
    }

    /// The result of the read; `None` while it is under way. The result is
    /// not checked for validity.
    pub fn date_time(&self) -> (result: Option<RTCDateTime>)
        ensures
            result == self@.date_time(),
    {
        match self.state.stage {
            Stage::Finished(datetime) => Some(datetime),
            _ => None,
        }
    }

    /// Take the byte that the caller has read from the pending register, and
    /// move to the next register or to the result. Once the read is over a
    /// further byte changes nothing.
    pub fn supply(&mut self, reply: u8)
        ensures
            final(self)@ == old(self)@.supply(reply),
    {
        proof {
            use_type_invariant(&*self);
        }
        let state = self.state;
        let next = match state.stage {
            Stage::AwaitUpdate => if get_update_in_progress_flag(reply) != 0 {
                ReaderState { stage: Stage::Status, ..state }
            } else {
                state
            },
            Stage::Status => if get_update_in_progress_flag(reply) != 0 {
                ReaderState { stage: Stage::Second, ..state }
            } else {
                end_pass(state)
            },
            Stage::Second => ReaderState {
                stage: Stage::Minute,
                current: RawClock { second: reply, ..state.current },
                ..state
            },
            Stage::Minute => ReaderState {
                stage: Stage::Hour,
                current: RawClock { minute: reply, ..state.current },
                ..state
            },
            Stage::Hour => ReaderState {
                stage: Stage::Day,
                current: RawClock { hour: reply, ..state.current },
                ..state
            },
            Stage::Day => ReaderState {
                stage: Stage::Month,
                current: RawClock { day: reply, ..state.current },
                ..state
            },
            Stage::Month => ReaderState {
                stage: Stage::Year,
                current: RawClock { month: reply, ..state.current },
                ..state
            },
            Stage::Year => ReaderState {
                stage: Stage::Status,
                current: RawClock { year: reply, ..state.current },
                ..state
            },
            Stage::Century(_) => {
                let current = RawClock { century: reply, ..state.current };
                ReaderState { stage: Stage::Status, settling: true, current, last: current, ..state }
            },
            Stage::Format => ReaderState {
                stage: Stage::Finished(decode(&state.current, reply, state.handler)),
                ..state
            },
            Stage::Finished(_) => state,
        };
        self.state = next;
    }
}

/// The decision at the end of a capture pass.
fn end_pass(state: ReaderState) -> (next: ReaderState)
    ensures
        next == state.end_pass(),
{
    if !state.settling {
        match state.handler {
            CMOSCenturyHandler::CenturyRegister(reg) => ReaderState {
                stage: Stage::Century(reg),
                ..state
            },
            CMOSCenturyHandler::CurrentYear(_) => ReaderState {
                stage: Stage::Status,
                settling: true,
                last: state.current,
                ..state
            },
        }
    } else if state.last == state.current {
        ReaderState { stage: Stage::Format, ..state }
    } else {
        ReaderState { stage: Stage::Status, settling: true, last: state.current, ..state }
    }
}

/// Begin a read of the clock. The century is found as `century_handler` says.
///
/// With a reference year, the years that can come out must fit the machine
/// word ([`CMOSCenturyHandler::is_representable`]).
pub fn read_rtc(century_handler: CMOSCenturyHandler) -> (reader: RtcReader)
    requires
        century_handler.representable(),
    ensures
        reader@ == ReaderState::start(century_handler),
{
    let zero = RawClock { second: 0, minute: 0, hour: 0, day: 0, month: 0, year: 0, century: 0 };
    RtcReader {
        state: ReaderState {
            handler: century_handler,
            stage: Stage::Status,
            settling: false,
            current: zero,
            last: zero,
        },
    }
}

/// Begin a read of the clock that first waits until the clock starts to
/// update itself, so that the result is as fresh as the next tick. The wait
/// has no end if the clock never updates.
pub fn wait_for_update_then_read_rtc(century_handler: CMOSCenturyHandler) -> (reader: RtcReader)
    requires
        century_handler.representable(),
    ensures
        reader@ == ReaderState::start_waiting(century_handler),
{
    let zero = RawClock { second: 0, minute: 0, hour: 0, day: 0, month: 0, year: 0, century: 0 };
    RtcReader {
        state: ReaderState {
            handler: century_handler,
            stage: Stage::AwaitUpdate,
            settling: false,
            current: zero,
            last: zero,
        },
    }
}

impl ReaderState {
    /// The state after the bytes `replies` have been supplied in order.
    pub open spec fn supply_all(self, replies: Seq<u8>) -> ReaderState
        decreases replies.len(),
    {
        if replies.len() == 0 {
            self
        } else {
            self.supply(replies[0]).supply_all(replies.skip(1))
        }
    }
}

/// Whether `replies` are the bytes of one capture pass, from its first poll
/// of status register A to the poll that ends it: any number of rounds, each
/// a status byte with an update in progress and the six clock bytes, and then
/// one status byte without.
pub open spec fn is_pass(replies: Seq<u8>) -> bool
    decreases replies.len(),
{
    if replies.len() == 0 {
        false
    } else if update_in_progress(replies[0]) {
        replies.len() >= 8 && is_pass(replies.skip(7))
    } else {
        replies.len() == 1
    }
}

/// The capture that a pass leaves: the six clock bytes of its last round,
/// or, where it has no round, the capture `current` that was there before.
/// The century byte is never touched.
pub open spec fn captured(current: RawClock, replies: Seq<u8>) -> RawClock
    decreases replies.len(),
{
    if replies.len() >= 8 && update_in_progress(replies[0]) {
        captured(
            RawClock {
                second: replies[1],
                minute: replies[2],
                hour: replies[3],
                day: replies[4],
                month: replies[5],
                year: replies[6],
                century: current.century,
            },
            replies.skip(7),
        )
    } else {
        current
    }
}

/// Supplying bytes one after another is supplying the first, then the rest.
proof fn supply_all_unfolds(state: ReaderState, replies: Seq<u8>, taken: int)
    requires
        0 <= taken < replies.len(),
    ensures
        state.supply_all(replies.skip(taken)) == state.supply(replies[taken]).supply_all(
            replies.skip(taken + 1),
        ),
{
    assert(replies.skip(taken).skip(1) =~= replies.skip(taken + 1));
}

/// A capture pass, supplied at the head of a pass, fills the capture and
/// ends in the decision that follows a pass.
pub proof fn pass_reaches_decision(state: ReaderState, pass: Seq<u8>)
    requires
        state.stage == Stage::Status,
        is_pass(pass),
    ensures
        state.supply_all(pass) == (ReaderState {
            current: captured(state.current, pass),
            ..state
        }).end_pass(),
    decreases pass.len(),
{
    assert(pass.skip(0) =~= pass);
    supply_all_unfolds(state, pass, 0);
    let s1 = state.supply(pass[0]);
    if update_in_progress(pass[0]) {
        supply_all_unfolds(s1, pass, 1);
        let s2 = s1.supply(pass[1]);
        supply_all_unfolds(s2, pass, 2);
        let s3 = s2.supply(pass[2]);
        supply_all_unfolds(s3, pass, 3);
        let s4 = s3.supply(pass[3]);
        supply_all_unfolds(s4, pass, 4);
        let s5 = s4.supply(pass[4]);
        supply_all_unfolds(s5, pass, 5);
        let s6 = s5.supply(pass[5]);
        supply_all_unfolds(s6, pass, 6);
        let s7 = s6.supply(pass[6]);
        pass_reaches_decision(s7, pass.skip(7));
    } else {
        assert(pass.skip(1).len() == 0);
    }
}

/// The comparison ends as soon as two captures in a row agree, and not
/// before. At the head of a pass of comparison, a pass whose capture equals
/// the one saved leads to the read of the format flags, and the byte of
/// status register B then ends the read with that capture decoded. A pass
/// whose capture differs is saved in its turn, and another pass begins.
pub proof fn agreement_ends_comparison(state: ReaderState, pass: Seq<u8>, status_b: u8)
    requires
        state.stage == Stage::Status,
        state.settling,
        is_pass(pass),
    ensures
        captured(state.current, pass) == state.last ==> {
            &&& state.supply_all(pass) == (ReaderState {
                stage: Stage::Format,
                current: state.last,
                ..state
            })
            &&& state.supply_all(pass).pending() == Some(STATUS_B)
            &&& state.supply_all(pass).supply(status_b).date_time() == Some(
                state.last.decoded(status_b, state.handler),
            )
        },
        captured(state.current, pass) != state.last ==> state.supply_all(pass) == (ReaderState {
            current: captured(state.current, pass),
            last: captured(state.current, pass),
            ..state
        }),
{
    pass_reaches_decision(state, pass);
}

/// Whether a comparison that begins with the capture `saved` runs through
/// all of `passes` and ends with the last of them: each is a capture pass,
/// each but the last leaves a capture other than the one saved before it, and
/// the last leaves the same.
pub open spec fn settles_with(saved: RawClock, passes: Seq<Seq<u8>>) -> bool
    decreases passes.len(),
{
    if passes.len() == 0 || !is_pass(passes[0]) {
        false
    } else if passes.len() == 1 {
        captured(saved, passes[0]) == saved
    } else {
        captured(saved, passes[0]) != saved && settles_with(
            captured(saved, passes[0]),
            passes.skip(1),
        )
    }
}

/// The capture on which such a comparison settles: the one that the last
/// pass but one has left.
pub open spec fn settled(saved: RawClock, passes: Seq<Seq<u8>>) -> RawClock
    decreases passes.len(),
{
    if passes.len() <= 1 {
        saved
    } else {
        settled(captured(saved, passes[0]), passes.skip(1))
    }
}

impl ReaderState {
    /// The state after the bytes of `passes` have been supplied, pass by pass.
    pub open spec fn supply_passes(self, passes: Seq<Seq<u8>>) -> ReaderState
        decreases passes.len(),
    {
        if passes.len() == 0 {
            self
        } else {
            self.supply_all(passes[0]).supply_passes(passes.skip(1))
        }
    }
}

/// A comparison takes exactly the passes up to the first that agrees with
/// the one before it, and then holds the capture agreed on, ready to read
/// the format flags.
pub proof fn comparison_settles(state: ReaderState, passes: Seq<Seq<u8>>)
    requires
        state.stage == Stage::Status,
        state.settling,
        state.last == state.current,
        settles_with(state.current, passes),
    ensures
        state.supply_passes(passes) == (ReaderState {
            stage: Stage::Format,
            current: settled(state.current, passes),
            last: settled(state.current, passes),
            ..state
        }),
    decreases passes.len(),
{
    agreement_ends_comparison(state, passes[0], 0);
    let next = state.supply_all(passes[0]);
    assert(state.supply_passes(passes) == next.supply_passes(passes.skip(1)));
    if passes.len() == 1 {
        assert(next.supply_passes(passes.skip(1)) == next);
    } else {
        comparison_settles(next, passes.skip(1));
    }
}

/// The first pass of a read leads to comparison: directly where a reference
/// year is used, and through one read of the century register where one is
/// named. That read is made once; the passes that follow leave its byte alone.
pub proof fn first_pass_begins_comparison(handler: CMOSCenturyHandler, pass: Seq<u8>, century: u8)
    requires
        is_pass(pass),
    ensures
        match handler {
            CMOSCenturyHandler::CenturyRegister(reg) => {
                &&& ReaderState::start(handler).supply_all(pass).pending() == Some(reg)
                &&& ReaderState::start(handler).supply_all(pass).supply(century) == (ReaderState {
                    handler,
                    stage: Stage::Status,
                    settling: true,
                    current: RawClock { century, ..captured(RawClock::zero(), pass) },
                    last: RawClock { century, ..captured(RawClock::zero(), pass) },
                })
            },
            CMOSCenturyHandler::CurrentYear(_) => ReaderState::start(handler).supply_all(pass) == (
            ReaderState {
                handler,
                stage: Stage::Status,
                settling: true,
                current: captured(RawClock::zero(), pass),
                last: captured(RawClock::zero(), pass),
            }),
        },
{
    pass_reaches_decision(ReaderState::start(handler), pass);
}

/// A read that waits for an update polls status register A until a byte
/// shows an update in progress, and then is a read from its start.
pub proof fn waiting_ends_on_update(handler: CMOSCenturyHandler, status_a: u8)
    ensures
        ReaderState::start_waiting(handler).pending() == Some(STATUS_A),
        ReaderState::start_waiting(handler).supply(status_a) == if update_in_progress(status_a) {
            ReaderState::start(handler)
        } else {
            ReaderState::start_waiting(handler)
        },
{
}

} // verus!
