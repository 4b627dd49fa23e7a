//! What the programming sequence guarantees, against the model of the
//! controller.
//!
//! A run is one whole sequence: the driver starts idle, each of its actions
//! is performed on the controller, the controller goes on as it may, and
//! the driver is handed what was read, until it answers with the result.
//! The theorems below hold of every run, whatever the controller does
//! within the model.

use vstd::prelude::*;
use crate::error::Error;
use crate::hardware::{
    lemma_other_double_word,
    lemma_stored_reads_back,
    read_back,
    same_outside,
    stored,
    Controller,
};
use crate::request::{high_word, low_word, next_word, ProgrammingRequest};
use crate::sequencer::{completion, is_write, step, Action, Event, State};
use crate::status::{lemma_clear_patterns, StatusSnapshot, CR_PG, SR_CLEAR_ALL, SR_EOP};

verus! {

/// The driver and the controller right before one step of the driver.
pub struct Moment {
    /// The state of the driver.
    pub driver: State,
    /// The event that the step is handed.
    pub event: Event,
    /// The controller at that time.
    pub hardware: Controller,
}

/// The action that the driver answers with at `moment`.
pub open spec fn action_at(moment: Moment, request: ProgrammingRequest) -> Action {
    step(moment.driver, request, moment.event).1
}

/// `event` reports truthfully what `action` gave on `hardware`: the flags of
/// the status register for a read, and nothing for anything else.
pub open spec fn answers(hardware: Controller, action: Action, event: Event) -> bool {
    match action {
        Action::ReadStatus => event matches Event::Status(sr) && StatusSnapshot::decode(sr)
            == hardware.status,
        _ => event is Proceed,
    }
}

/// `after` is a moment that can follow `before`: the driver has taken its
/// step and has not finished, its action has been performed on the
/// controller, the controller has gone on as it may, and the event reports
/// what the action gave.
pub open spec fn follows(before: Moment, after: Moment, request: ProgrammingRequest) -> bool {
    let (state, action) = step(before.driver, request, before.event);
    &&& !(action is Finish)
    &&& after.driver == state
    &&& answers(before.hardware, action, after.event)
    &&& before.hardware.access(action).evolves(after.hardware)
}

/// Moment `i + 1` of `trace` can follow moment `i`.
pub open spec fn linked(trace: Seq<Moment>, i: int, request: ProgrammingRequest) -> bool {
    follows(trace[i], trace[i + 1], request)
}

/// `trace` is a sequence that programs `request`, as far as it has got: it
/// starts with the driver idle, and each moment follows the one before.
pub open spec fn underway(trace: Seq<Moment>, request: ProgrammingRequest) -> bool {
    &&& trace.len() > 0
    &&& trace[0].driver is Idle
    &&& forall|i: int| 0 <= i < trace.len() - 1 ==> #[trigger] linked(trace, i, request)
}

/// `trace` is one whole sequence that programs `request` and ends with
/// `result`: at its last moment the driver finishes. The controller at the
/// last moment is the controller as the caller finds it.
pub open spec fn run(
    trace: Seq<Moment>,
    request: ProgrammingRequest,
    result: Result<(), Error>,
) -> bool {
    &&& underway(trace, request)
    &&& action_at(trace.last(), request) == Action::Finish(result)
}

/// Between moment `i` of `trace` and the next, the controller sets no error
/// flag on its own.
pub open spec fn calm(trace: Seq<Moment>, i: int, request: ProgrammingRequest) -> bool {
    trace[i].hardware.access(action_at(trace[i], request)).raises_nothing(trace[i + 1].hardware)
}

/// During the whole of `trace` the controller sets no error flag on its own.
pub open spec fn undisturbed(trace: Seq<Moment>, request: ProgrammingRequest) -> bool {
    forall|i: int| 0 <= i < trace.len() - 1 ==> #[trigger] calm(trace, i, request)
}

/// The result is one of the two refusals: the controller was found busy, or
/// suspended, before anything was written.
pub open spec fn refused(result: Result<(), Error>) -> bool {
    result == Err::<(), Error>(Error::Busy) || result == Err::<(), Error>(Error::Suspend)
}

// What holds of the enable bit at each state of the driver, in a run that
// started from `start`.
spec fn armed_as_expected(moment: Moment, start: Controller) -> bool {
    let hardware = moment.hardware;
    match moment.driver {
        State::Idle => hardware == start,
        State::PreconditionCheck => moment.event is Status && hardware.programming
            == start.programming,
        State::ErrorClear => true,
        State::Enabled => hardware.programming,
        State::FirstHalf => hardware.programming,
        State::SecondHalf => hardware.programming,
        State::AwaitingCompletion => hardware.programming && moment.event is Status,
        State::Completed(result) => hardware.programming && !refused(result),
        State::Disabled(result) => !hardware.programming && !refused(result),
    }
}

proof fn lemma_armed_step(
    before: Moment,
    after: Moment,
    request: ProgrammingRequest,
    start: Controller,
)
    requires
        armed_as_expected(before, start),
        follows(before, after, request),
    ensures
        armed_as_expected(after, start),
        !(after.driver is Idle),
{
    lemma_clear_patterns();
}

proof fn lemma_armed(trace: Seq<Moment>, request: ProgrammingRequest, i: int)
    requires
        underway(trace, request),
        0 <= i < trace.len(),
    ensures
        armed_as_expected(trace[i], trace[0].hardware),
        i > 0 ==> !(trace[i].driver is Idle),
    decreases i,
{
    if i > 0 {
        lemma_armed(trace, request, i - 1);
        assert(linked(trace, i - 1, request));
        lemma_armed_step(trace[i - 1], trace[i], request, trace[0].hardware);
    }
}

// The controller after the second word has been written, in terms of the
// memory `origin` that the sequence found: the double word is being
// programmed, or has been stored, or an error flag is set; a misaligned pair
// was dropped.
spec fn launched(hardware: Controller, request: ProgrammingRequest, origin: Map<u32, u32>) -> bool {
    if request.aligned() {
        ||| {
            &&& hardware.pending == Some(request)
            &&& !hardware.status.eop
            &&& hardware.memory == origin
        }
        ||| {
            &&& hardware.pending is None
            &&& hardware.status.eop
            &&& hardware.memory == stored(origin, request)
        }
        ||| {
            &&& hardware.pending is None
            &&& hardware.status.has_error()
            &&& same_outside(origin, hardware.memory, request)
        }
    } else {
        &&& hardware.pending is None
        &&& hardware.status.align
        &&& !hardware.status.eop
        &&& hardware.memory == origin
    }
}

// What the flags `seen` at the last read say of the controller now.
spec fn observed(
    seen: StatusSnapshot,
    hardware: Controller,
    request: ProgrammingRequest,
    origin: Map<u32, u32>,
) -> bool {
    seen.eop ==> {
        &&& request.aligned()
        &&& hardware.pending is None
        &&& same_outside(origin, hardware.memory, request)
        &&& !seen.has_error() ==> hardware.memory == stored(origin, request)
    }
}

// The controller once the operation has ended with `result`.
spec fn settled(
    hardware: Controller,
    request: ProgrammingRequest,
    origin: Map<u32, u32>,
    result: Result<(), Error>,
) -> bool {
    &&& hardware.latch is None
    &&& hardware.pending is None
    &&& request.aligned()
    &&& same_outside(origin, hardware.memory, request)
    &&& result is Ok ==> hardware.memory == stored(origin, request)
}

// What holds of the controller at each state of the driver, in a run that
// started from `start` with no operation half done. With `quiet`, the
// controller has set no error flag on its own so far.
spec fn progress(
    moment: Moment,
    request: ProgrammingRequest,
    start: Controller,
    quiet: bool,
) -> bool {
    let hardware = moment.hardware;
    let untouched = {
        &&& hardware.pending is None
        &&& hardware.memory == start.memory
        &&& !hardware.status.eop
        &&& quiet ==> !hardware.status.has_error()
    };
    let clean = quiet && request.aligned();
    match moment.driver {
        State::Idle => hardware == start,
        State::PreconditionCheck => {
            &&& hardware.latch is None
            &&& moment.event matches Event::Status(sr)
            &&& !StatusSnapshot::decode(sr).busy ==> hardware.pending is None && hardware.memory
                == start.memory
        },
        State::ErrorClear => hardware.latch is None && untouched,
        State::Enabled => hardware.latch is None && untouched && hardware.programming,
        State::FirstHalf => {
            &&& hardware.latch == Some((request.destination, low_word(request.value)))
            &&& untouched
            &&& hardware.programming
        },
        State::SecondHalf => {
            &&& hardware.latch is None
            &&& launched(hardware, request, start.memory)
            &&& clean ==> !hardware.status.has_error()
        },
        State::AwaitingCompletion => {
            &&& hardware.latch is None
            &&& launched(hardware, request, start.memory)
            &&& clean ==> !hardware.status.has_error()
            &&& moment.event matches Event::Status(sr)
            &&& observed(StatusSnapshot::decode(sr), hardware, request, start.memory)
            &&& clean ==> !StatusSnapshot::decode(sr).has_error()
        },
        State::Completed(result) => {
            &&& settled(hardware, request, start.memory, result)
            &&& clean ==> result is Ok
        },
        State::Disabled(result) => {
            &&& settled(hardware, request, start.memory, result)
            &&& clean ==> result is Ok
        },
    }
}

proof fn lemma_progress_step(
    before: Moment,
    after: Moment,
    request: ProgrammingRequest,
    start: Controller,
    quiet: bool,
)
    requires
        start.coherent(),
        start.at_rest(),
        progress(before, request, start, quiet),
        armed_as_expected(before, start),
        follows(before, after, request),
        quiet ==> before.hardware.access(action_at(before, request)).raises_nothing(
            after.hardware,
        ),
    ensures
        progress(after, request, start, quiet),
{
    lemma_clear_patterns();
}

proof fn lemma_progress(
    trace: Seq<Moment>,
    request: ProgrammingRequest,
    quiet: bool,
    i: int,
)
    requires
        underway(trace, request),
        trace[0].hardware.coherent(),
        trace[0].hardware.at_rest(),
        quiet ==> undisturbed(trace, request),
        0 <= i < trace.len(),
    ensures
        progress(trace[i], request, trace[0].hardware, quiet),
    decreases i,
{
    if i > 0 {
        lemma_progress(trace, request, quiet, i - 1);
        lemma_armed(trace, request, i - 1);
        assert(linked(trace, i - 1, request));
        if quiet {
            assert(calm(trace, i - 1, request));
        }
        lemma_progress_step(trace[i - 1], trace[i], request, trace[0].hardware, quiet);
    }
}

// The driver looks for BSY and PESD at the second moment of a run, in the
// flags that the controller held at the first.
proof fn lemma_check_is_second(trace: Seq<Moment>, request: ProgrammingRequest, i: int)
    requires
        underway(trace, request),
        0 <= i < trace.len(),
        trace[i].driver is PreconditionCheck,
    ensures
        i == 1,
        trace[1].event matches Event::Status(sr) && StatusSnapshot::decode(sr)
            == trace[0].hardware.status,
        trace[0].hardware.evolves(trace[1].hardware),
{
    // The moment before can only be the first: it is idle, or it is at the
    // check itself and was handed no status, which does not happen in a run.
    lemma_armed(trace, request, i - 1);
    assert(linked(trace, i - 1, request));
}

// A run ends at its second moment, refused, or after programming has been
// disabled.
proof fn lemma_last_moment(
    trace: Seq<Moment>,
    request: ProgrammingRequest,
    result: Result<(), Error>,
)
    requires
        run(trace, request, result),
    ensures
        trace.len() >= 2,
        refused(result) ==> trace.last().driver is PreconditionCheck && trace.len() == 2,
        !refused(result) ==> trace.last().driver == State::Disabled(result),
        trace[1].driver is PreconditionCheck,
        trace[1].event matches Event::Status(sr) && StatusSnapshot::decode(sr)
            == trace[0].hardware.status,
        trace[0].hardware.evolves(trace[1].hardware),
        action_at(trace[0], request) == Action::ReadStatus,
{
    let last = trace.len() - 1;
    lemma_armed(trace, request, last);
    assert(linked(trace, 0, request));
    if trace.last().driver is PreconditionCheck {
        lemma_check_is_second(trace, request, last);
    }
}

/// A sequence that finds the controller busy ends with `Busy`, and on no
/// other ground does a sequence end so.
///
/// When the sequence starts with BSY set, its one access is a read of the
/// status register: no register is written, and no word of flash memory.
pub proof fn busy_is_refused(
    trace: Seq<Moment>,
    request: ProgrammingRequest,
    result: Result<(), Error>,
)
    requires
        run(trace, request, result),
    ensures
        result == Err::<(), Error>(Error::Busy) <==> trace[0].hardware.status.busy,
        trace[0].hardware.status.busy ==> {
            &&& trace.len() == 2
            &&& action_at(trace[0], request) == Action::ReadStatus
            &&& forall|i: int|
                0 <= i < trace.len() ==> !is_write(#[trigger] action_at(trace[i], request))
        },
{
    lemma_last_moment(trace, request, result);
    if trace.len() > 2 {
        assert(linked(trace, 1, request));
    }
}

/// A sequence that finds the controller not busy, but suspended, ends with
/// `Suspend`, and on no other ground does a sequence end so.
///
/// Its one access is a read of the status register: no register is written,
/// and no word of flash memory.
pub proof fn suspension_is_refused(
    trace: Seq<Moment>,
    request: ProgrammingRequest,
    result: Result<(), Error>,
)
    requires
        run(trace, request, result),
    ensures
        result == Err::<(), Error>(Error::Suspend) <==> !trace[0].hardware.status.busy
            && trace[0].hardware.status.suspend,
        !trace[0].hardware.status.busy && trace[0].hardware.status.suspend ==> {
            &&& trace.len() == 2
            &&& action_at(trace[0], request) == Action::ReadStatus
            &&& forall|i: int|
                0 <= i < trace.len() ==> !is_write(#[trigger] action_at(trace[i], request))
        },
{
    lemma_last_moment(trace, request, result);
    if trace.len() > 2 {
        assert(linked(trace, 1, request));
    }
}

/// Programming is disabled when a sequence returns, however it ended.
///
/// A sequence that was refused has not touched the enable bit.
/// Every other sequence has set it and has cleared it again, success or
/// not.
pub proof fn enable_bit_is_restored(
    trace: Seq<Moment>,
    request: ProgrammingRequest,
    result: Result<(), Error>,
)
    requires
        run(trace, request, result),
    ensures
        refused(result) ==> trace.last().hardware.programming
            == trace[0].hardware.programming,
        !refused(result) ==> !trace.last().hardware.programming,
{
    lemma_armed(trace, request, trace.len() - 1);
}

/// A sequence that returns `Ok` has stored the double word: the destination
/// was aligned, reading the 64 bits back at the destination gives the value
/// of the request, and no other word of flash memory has changed.
///
/// The controller is left with programming disabled, no operation in
/// progress and no double word half written.
pub proof fn success_stores_the_double_word(trace: Seq<Moment>, request: ProgrammingRequest)
    requires
        run(trace, request, Ok(())),
        trace[0].hardware.coherent(),
        trace[0].hardware.at_rest(),
    ensures
        request.aligned(),
        read_back(trace.last().hardware.memory, request.destination) == request.value,
        trace.last().hardware.memory == stored(trace[0].hardware.memory, request),
        !trace.last().hardware.programming,
        trace.last().hardware.pending is None,
        trace.last().hardware.at_rest(),
{
    lemma_armed(trace, request, trace.len() - 1);
    lemma_progress(trace, request, false, trace.len() - 1);
    lemma_stored_reads_back(trace[0].hardware.memory, request);
}

/// A sequence on a destination that is not aligned to eight bytes never
/// returns `Ok`.
///
/// The driver writes the two words as asked. The controller drops the pair
/// and sets PGAERR, and never sets EOP for it: unless it is refused at the
/// start, the sequence waits until the caller gives up. So the only ends
/// that such a sequence has are the two refusals.
pub proof fn misaligned_never_succeeds(
    trace: Seq<Moment>,
    request: ProgrammingRequest,
    result: Result<(), Error>,
)
    requires
        run(trace, request, result),
        trace[0].hardware.coherent(),
        trace[0].hardware.at_rest(),
        !request.aligned(),
    ensures
        result is Err,
        refused(result),
{
    lemma_progress(trace, request, false, trace.len() - 1);
}

/// A sequence on a destination that is not aligned to eight bytes, once it
/// has written the second word: from its sixth moment on, PGAERR is set,
/// flash memory is as the sequence found it, and the driver reads the status
/// register and waits.
pub proof fn misaligned_is_reported(trace: Seq<Moment>, request: ProgrammingRequest, i: int)
    requires
        underway(trace, request),
        trace[0].hardware.coherent(),
        trace[0].hardware.at_rest(),
        !request.aligned(),
        5 <= i < trace.len(),
    ensures
        trace[i].hardware.status.align,
        trace[i].hardware.memory == trace[0].hardware.memory,
        action_at(trace[i], request) == Action::ReadStatus,
{
    lemma_rank(trace, request, i);
    lemma_progress(trace, request, false, i);
}

/// Flags left by earlier operations do not leak into a sequence.
///
/// Take a sequence on an aligned destination that finds the controller
/// neither busy nor suspended, and during which the controller sets no
/// error flag on its own. It returns `Ok`, whatever error flags were set
/// when it started.
pub proof fn stale_flags_do_not_leak(
    trace: Seq<Moment>,
    request: ProgrammingRequest,
    result: Result<(), Error>,
)
    requires
        run(trace, request, result),
        trace[0].hardware.coherent(),
        trace[0].hardware.at_rest(),
        request.aligned(),
        !trace[0].hardware.status.busy,
        !trace[0].hardware.status.suspend,
        undisturbed(trace, request),
    ensures
        result is Ok,
{
    lemma_last_moment(trace, request, result);
    lemma_progress(trace, request, true, trace.len() - 1);
}

/// Two sequences on two different double words, one after the other, each
/// returning `Ok`: afterwards both double words hold what was asked.
///
/// Between the two the controller may go on as it may.
pub proof fn two_programs_both_hold(
    first: Seq<Moment>,
    second: Seq<Moment>,
    a: ProgrammingRequest,
    b: ProgrammingRequest,
)
    requires
        run(first, a, Ok(())),
        run(second, b, Ok(())),
        first[0].hardware.coherent(),
        first[0].hardware.at_rest(),
        first.last().hardware.evolves(second[0].hardware),
        a.destination != b.destination,
    ensures
        read_back(second.last().hardware.memory, a.destination) == a.value,
        read_back(second.last().hardware.memory, b.destination) == b.value,
{
    success_stores_the_double_word(first, a);
    success_stores_the_double_word(second, b);
    lemma_other_double_word(
        second[0].hardware.memory,
        second.last().hardware.memory,
        b,
        a.destination,
    );
}

/// Clearing the flags twice in a row is clearing them once: a second write
/// of the same value to the status register changes nothing. Clearing them
/// all leaves none set, and where none was set it changes nothing.
pub proof fn clearing_twice_is_clearing_once(hardware: Controller, written: u32)
    ensures
        hardware.access(Action::WriteStatus(written)).access(Action::WriteStatus(written))
            == hardware.access(Action::WriteStatus(written)),
        !hardware.access(Action::WriteStatus(SR_CLEAR_ALL)).status.has_error(),
        !hardware.access(Action::WriteStatus(SR_CLEAR_ALL)).status.eop,
        !hardware.status.has_error() && !hardware.status.eop ==> hardware.access(
            Action::WriteStatus(SR_CLEAR_ALL),
        ) == hardware,
{
    lemma_clear_patterns();
}

// How far a state is into the sequence.
spec fn rank(state: State) -> int {
    match state {
        State::Idle => 0,
        State::PreconditionCheck => 1,
        State::ErrorClear => 2,
        State::Enabled => 3,
        State::FirstHalf => 4,
        State::SecondHalf => 5,
        State::AwaitingCompletion => 6,
        State::Completed(_) => 7,
        State::Disabled(_) => 8,
    }
}

// The first seven moments of a run are at the first seven states, in order,
// and the later ones are past the writes.
proof fn lemma_rank(trace: Seq<Moment>, request: ProgrammingRequest, i: int)
    requires
        underway(trace, request),
        0 <= i < trace.len(),
    ensures
        i <= 6 ==> rank(trace[i].driver) == i,
        i >= 6 ==> rank(trace[i].driver) >= 6,
    decreases i,
{
    if i > 0 {
        lemma_rank(trace, request, i - 1);
        lemma_armed(trace, request, i - 1);
        assert(linked(trace, i - 1, request));
    }
}

// Every moment from the seventh up to one that waits for the end waits for
// the end.
proof fn lemma_waiting(trace: Seq<Moment>, request: ProgrammingRequest, i: int, j: int)
    requires
        underway(trace, request),
        6 <= i <= j < trace.len(),
        trace[j].driver is AwaitingCompletion,
    ensures
        trace[i].driver is AwaitingCompletion,
    decreases j - i,
{
    if i < j {
        lemma_rank(trace, request, j - 1);
        assert(linked(trace, j - 1, request));
        lemma_waiting(trace, request, i, j - 1);
    }
}

/// The accesses of a sequence that was not refused, in their order:
///
/// 1. the status register is read, for BSY and PESD;
/// 2. every sticky flag is cleared;
/// 3. programming is enabled;
/// 4. the low half is written to the destination;
/// 5. the high half is written to the word after it, with no access between
///    the two;
/// 6. the status register is read, once or more, until EOP is set;
/// 7. EOP is cleared, and no error flag with it;
/// 8. programming is disabled.
///
/// Then the sequence finishes, and its result is what the flags at the last
/// read said.
pub proof fn accesses_in_order(
    trace: Seq<Moment>,
    request: ProgrammingRequest,
    result: Result<(), Error>,
)
    requires
        run(trace, request, result),
        !refused(result),
    ensures
        trace.len() >= 9,
        action_at(trace[0], request) == Action::ReadStatus,
        action_at(trace[1], request) == Action::WriteStatus(SR_CLEAR_ALL),
        action_at(trace[2], request) == Action::SetControl(CR_PG),
        action_at(trace[3], request) == (Action::WriteWord {
            address: request.destination,
            value: low_word(request.value),
        }),
        action_at(trace[4], request) == (Action::WriteWord {
            address: next_word(request.destination),
            value: high_word(request.value),
        }),
        forall|i: int|
            5 <= i < trace.len() - 3 ==> #[trigger] action_at(trace[i], request)
                == Action::ReadStatus,
        action_at(trace[trace.len() - 3], request) == Action::WriteStatus(SR_EOP),
        action_at(trace[trace.len() - 2], request) == Action::ClearControl(CR_PG),
        action_at(trace[trace.len() - 1], request) == Action::Finish(result),
        trace[trace.len() - 3].event matches Event::Status(sr) && completion(sr) == Some(result)
            && StatusSnapshot::decode(sr) == trace[trace.len() - 4].hardware.status,
{
    let n = trace.len() as int;
    lemma_last_moment(trace, request, result);
    // The last three moments: the wait ends, EOP is cleared, programming is
    // disabled.
    assert(linked(trace, n - 2, request));
    assert(linked(trace, n - 3, request));
    assert(linked(trace, n - 4, request));
    // The first five.
    lemma_rank(trace, request, 3);
    lemma_rank(trace, request, 4);
    assert(linked(trace, 1, request));
    // The reads in between.
    assert forall|i: int| 5 <= i < n - 3 implies #[trigger] action_at(trace[i], request)
        == Action::ReadStatus by {
        assert(linked(trace, i, request));
        if i > 5 {
            lemma_waiting(trace, request, i + 1, n - 3);
        } else {
            lemma_rank(trace, request, 5);
        }
    }
}

/// The sequence can succeed: from any controller that is neither busy nor
/// suspended, on any aligned destination, there is a run that returns `Ok`,
/// in which the controller sets no error flag. It is the shortest one, with
/// the operation over by the first read. `sr` is the value of the status
/// register at the start.
pub proof fn success_is_possible(request: ProgrammingRequest, start: Controller, sr: u32) -> (trace:
    Seq<Moment>)
    requires
        request.aligned(),
        start.coherent(),
        start.at_rest(),
        StatusSnapshot::decode(sr) == start.status,
        !start.status.busy,
        !start.status.suspend,
    ensures
        run(trace, request, Ok(())),
        undisturbed(trace, request),
        trace[0].hardware == start,
        trace.len() == 9,
{
    lemma_clear_patterns();
    let ok: Result<(), Error> = Ok(());
    let cleared = start.access(Action::WriteStatus(SR_CLEAR_ALL));
    let enabled = cleared.access(Action::SetControl(CR_PG));
    let half = enabled.access(
        Action::WriteWord { address: request.destination, value: low_word(request.value) },
    );
    let done = Controller {
        status: StatusSnapshot::decode(SR_EOP),
        programming: true,
        memory: stored(start.memory, request),
        latch: None,
        pending: None,
    };
    let acknowledged = done.access(Action::WriteStatus(SR_EOP));
    let disabled = acknowledged.access(Action::ClearControl(CR_PG));
    let trace = seq![
        Moment { driver: State::Idle, event: Event::Proceed, hardware: start },
        Moment { driver: State::PreconditionCheck, event: Event::Status(sr), hardware: start },
        Moment { driver: State::ErrorClear, event: Event::Proceed, hardware: cleared },
        Moment { driver: State::Enabled, event: Event::Proceed, hardware: enabled },
        Moment { driver: State::FirstHalf, event: Event::Proceed, hardware: half },
        Moment { driver: State::SecondHalf, event: Event::Proceed, hardware: done },
        Moment { driver: State::AwaitingCompletion, event: Event::Status(SR_EOP), hardware: done },
        Moment { driver: State::Completed(ok), event: Event::Proceed, hardware: acknowledged },
        Moment { driver: State::Disabled(ok), event: Event::Proceed, hardware: disabled },
    ];
    trace
}

} // verus!
