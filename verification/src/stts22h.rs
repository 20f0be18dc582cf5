//! Register-level protocol of the STTS22H temperature sensor.

use vstd::prelude::*;

verus! {

/// Registers of the sensor.
#[derive(Clone, Copy, PartialEq, Eq, Debug)]
pub enum Reg {
    /// Read-only identity.
    WhoAmI,
    /// High temperature alarm threshold.
    TempHLimit,
    /// Low temperature alarm threshold.
    TempLLimit,
    /// Mode, averaging, address auto-increment and one-shot trigger.
    Ctrl,
    /// Conversion and threshold flags.
    Status,
    /// Low byte of the sample.
    TempLOut,
    /// High byte of the sample.
    TempHOut,
}

impl Reg {
    /// Offset of the register in the sensor's address space.
    pub open spec fn spec_offset(self) -> u8 {
        match self {
            Reg::WhoAmI => 0x01,
            Reg::TempHLimit => 0x02,
            Reg::TempLLimit => 0x03,
            Reg::Ctrl => 0x04,
            Reg::Status => 0x05,
            Reg::TempLOut => 0x06,
            Reg::TempHOut => 0x07,
        }
    }

    /// Offset of the register in the sensor's address space.
    #[verifier::when_used_as_spec(spec_offset)]
    pub fn offset(self) -> (offset: u8)
        ensures
            offset == self.spec_offset(),
    {
        match self {
            Reg::WhoAmI => 0x01,
            Reg::TempHLimit => 0x02,
            Reg::TempLLimit => 0x03,
            Reg::Ctrl => 0x04,
            Reg::Status => 0x05,
            Reg::TempLOut => 0x06,
            Reg::TempHOut => 0x07,
        }
    }
}

/// Bits of the control register.
pub struct Ctrl;

impl Ctrl {
    /// Starts the 1 Hz output data rate mode.
    pub const LOW_ODR_START: u8 = 0x80;
    /// Block data update: the sample registers are not refreshed between the
    /// read of the low byte and the read of the high byte.
    pub const BDU: u8 = 0x40;
    /// Number of averaged conversions; in freerun mode also the data rate.
    pub const AVG: u8 = 0x30;
    /// The register address advances by itself within a multi-byte transfer.
    pub const IF_ADD_INC: u8 = 0x08;
    /// Freerun mode.
    pub const FREERUN: u8 = 0x04;
    /// Switches the SMBus timeout off.
    pub const TIME_OUT_DIS: u8 = 0x02;
    /// Triggers one conversion.
    pub const ONE_SHOT: u8 = 0x01;
}

/// Content of the status register.
///
/// Reading the register clears the two threshold flags on the sensor, so a
/// value of this type is a snapshot taken by one read.
#[derive(Clone, Copy, PartialEq, Eq, Debug)]
pub struct Status(pub u8);

impl Status {
    /// The low temperature limit was exceeded.
    pub const UNDER_THL: u8 = 0x04;
    /// The high temperature limit was exceeded.
    pub const OVER_THH: u8 = 0x02;
    /// A one-shot conversion is in progress.
    pub const BUSY: u8 = 0x01;

    pub open spec fn spec_under_thl(self) -> bool {
        self.0 & Status::UNDER_THL != 0
    }

    pub open spec fn spec_over_thh(self) -> bool {
        self.0 & Status::OVER_THH != 0
    }

    pub open spec fn spec_busy(self) -> bool {
        self.0 & Status::BUSY != 0
    }

    /// Whether the low temperature limit was exceeded since the last read.
    #[verifier::when_used_as_spec(spec_under_thl)]
    pub fn under_thl(self) -> (set: bool)
        ensures
            set == self.spec_under_thl(),
    {
        (self.0 & Status::UNDER_THL) != 0
    }

    /// Whether the high temperature limit was exceeded since the last read.
    #[verifier::when_used_as_spec(spec_over_thh)]
    pub fn over_thh(self) -> (set: bool)
        ensures
            set == self.spec_over_thh(),
    {
        (self.0 & Status::OVER_THH) != 0
    }

    /// Whether a one-shot conversion is still in progress. Meaningful in
    /// one-shot mode and at the 1 Hz data rate only.
    #[verifier::when_used_as_spec(spec_busy)]
    pub fn busy(self) -> (set: bool)
        ensures
            set == self.spec_busy(),
    {
        (self.0 & Status::BUSY) != 0
    }

    /// Names of the flags that are set, in the order in which they are shown.
    pub open spec fn flag_names(self) -> Seq<Seq<char>> {
        let under: Seq<Seq<char>> = if self.spec_under_thl() {
            seq!["UNDER_THL"@]
        } else {
            seq![]
        };
        let over: Seq<Seq<char>> = if self.spec_over_thh() {
            seq!["OVER_THH"@]
        } else {
            seq![]
        };
        let busy: Seq<Seq<char>> = if self.spec_busy() {
            seq!["BUSY"@]
        } else {
            seq![]
        };
        under + over + busy
    }

    /// The text that stands for the snapshot: the names of the set flags,
    /// separated by a bar, inside `Status(` and `)`.
    pub open spec fn text(self) -> Seq<char> {
        "Status("@ + joined(self.flag_names(), " | "@) + ")"@
    }

    /// Renders the snapshot for a log line, for example `Status(OVER_THH | BUSY)`.
    pub fn format(self) -> (text: String)
        ensures
            text@ == self.text(),
    {
        let mut text = String::from_str("Status(");
        let mut prev = false;
        let ghost mut shown: Seq<Seq<char>> = seq![];
        proof {
            assert("Status("@ + joined(shown, " | "@) =~= "Status("@);
        }
        if self.under_thl() {
            text.append("UNDER_THL");
            prev = true;
            proof {
                lemma_joined_push(shown, "UNDER_THL"@, " | "@);
                assert(text@ =~= "Status("@ + joined(shown.push("UNDER_THL"@), " | "@));
                shown = shown.push("UNDER_THL"@);
            }
        }
        if self.over_thh() {
            if prev {
                text.append(" | ");
            }
            text.append("OVER_THH");
            prev = true;
            proof {
                lemma_joined_push(shown, "OVER_THH"@, " | "@);
                assert(text@ =~= "Status("@ + joined(shown.push("OVER_THH"@), " | "@));
                shown = shown.push("OVER_THH"@);
            }
        }
        if self.busy() {
            if prev {
                text.append(" | ");
            }
            text.append("BUSY");
            proof {
                lemma_joined_push(shown, "BUSY"@, " | "@);
                assert(text@ =~= "Status("@ + joined(shown.push("BUSY"@), " | "@));
                shown = shown.push("BUSY"@);
            }
        }
        text.append(")");
        proof {
            assert(shown =~= self.flag_names());
        }
        text
    }
}

/// A sample of the sensor, in hundredths of a degree Celsius.
#[derive(Clone, Copy, PartialEq, Eq, Debug)]
pub struct Temperature {
    pub centi_celsius: i16,
}

/// The signed 16-bit number whose little-endian two's complement bytes are
/// `low` and `high`.
pub open spec fn sample_value(low: u8, high: u8) -> int {
    let unsigned = low as int + 256 * (high as int);
    if unsigned < 0x8000 {
        unsigned
    } else {
        unsigned - 0x1_0000
    }
}

/// The little-endian two's complement bytes of `value`, low byte first.
pub open spec fn sample_bytes(value: i16) -> (u8, u8) {
    let unsigned = if value < 0 {
        value as int + 0x1_0000
    } else {
        value as int
    };
    ((unsigned % 256) as u8, (unsigned / 256) as u8)
}

impl Temperature {
    /// Lowest temperature that the sensor is specified for, in hundredths of a degree.
    pub const MIN_CENTI_CELSIUS: i16 = -4000;
    /// Highest temperature that the sensor is specified for, in hundredths of a degree.
    pub const MAX_CENTI_CELSIUS: i16 = 12500;

    /// Decodes what the two sample registers hold, low byte first.
    pub fn from_le_bytes(low: u8, high: u8) -> (sample: Temperature)
        ensures
            sample.centi_celsius == sample_value(low, high),
    {
        let unsigned: u16 = (high as u16) * 256 + (low as u16);
        let centi_celsius: i16 = if unsigned < 0x8000 {
            unsigned as i16
        } else {
            (unsigned as i32 - 0x1_0000) as i16
        };
        Temperature { centi_celsius }
    }

    pub open spec fn spec_in_range(self) -> bool {
        Temperature::MIN_CENTI_CELSIUS <= self.centi_celsius <= Temperature::MAX_CENTI_CELSIUS
    }

    /// Whether the sample lies between -40 and +125 degrees Celsius, the range
    /// that the sensor is specified for. A sample outside it is a transient
    /// read error.
    #[verifier::when_used_as_spec(spec_in_range)]
    pub fn in_range(self) -> (inside: bool)
        ensures
            inside == self.spec_in_range(),
    {
        Temperature::MIN_CENTI_CELSIUS <= self.centi_celsius
            && self.centi_celsius <= Temperature::MAX_CENTI_CELSIUS
    }
}

/// Decoding the bytes of a 16-bit signed number gives that number back, so
/// every sample value is reported as the sensor encoded it.
pub proof fn lemma_sample_round_trip(value: i16)
    ensures
        sample_value(sample_bytes(value).0, sample_bytes(value).1) == value,
{
}

/// Two register contents that decode to the same sample are the same bytes.
pub proof fn lemma_sample_bytes_unique(low: u8, high: u8)
    ensures
        -0x8000 <= sample_value(low, high) < 0x8000,
        sample_bytes(sample_value(low, high) as i16) == (low, high),
{
}

/// Failure of a bus transaction: a missing acknowledge, a lost arbitration, a
/// DMA fault, a timeout, or a reply that does not fit the request.
#[derive(Clone, Copy, PartialEq, Eq, Debug)]
pub struct BusError;

/// What the firmware has to do next on behalf of the driver.
#[derive(Clone, Copy, PartialEq, Eq, Debug)]
pub enum Action {
    /// Write the two bytes `register`, `value` to the device at `address`.
    Write { address: u8, register: u8, value: u8 },
    /// Write the byte `register` to the device at `address`, then read `len`
    /// bytes from it in the same transaction.
    Read { address: u8, register: u8, len: u8 },
    /// Suspend for `millis` milliseconds.
    Sleep { millis: u64 },
}

/// What came of the action that the driver asked for last.
#[derive(Clone, Copy, PartialEq, Eq, Debug)]
pub enum Event {
    /// The write went through.
    Written,
    /// A read of one byte returned this byte.
    Byte(u8),
    /// A read of two bytes returned these, in the order in which they arrived.
    Pair(u8, u8),
    /// The sleep is over.
    Elapsed,
    /// The transaction failed.
    BusError,
}

/// Result of an operation that went through.
#[derive(Clone, Copy, PartialEq, Eq, Debug)]
pub enum Reply {
    /// `init`: the sensor is configured.
    Configured,
    /// `id`: the identity byte.
    Identity(u8),
    /// `status`: the status register.
    Status(Status),
    /// `temperature`: the sample.
    Temperature(Temperature),
}

/// Answer of the driver to an event.
#[derive(Clone, Copy, PartialEq, Eq, Debug)]
pub enum Step {
    /// The operation goes on with this action.
    Perform(Action),
    /// The operation is over.
    Done(Result<Reply, BusError>),
}

/// Where the driver stands within an operation.
#[derive(Clone, Copy, PartialEq, Eq, Debug)]
pub enum Phase {
    /// No operation is in flight.
    Idle,
    /// `init`: the write of the control register is in flight.
    Configuring,
    /// `id`: the read of the identity register is in flight.
    Identifying,
    /// `status`: the read of the status register is in flight.
    Checking,
    /// `temperature`: the read of the control register is in flight.
    ReadingCtrl,
    /// `temperature`: the write that triggers the conversion is in flight.
    Triggering,
    /// `temperature`: a read of the status register is in flight.
    Polling,
    /// `temperature`: the conversion was still running; the pause before the
    /// next poll is in flight.
    Waiting,
    /// `temperature`: the read of the two sample registers is in flight.
    ReadingOut,
}

/// The read of `len` bytes that starts at `register`.
pub open spec fn read_of(register: Reg, len: u8) -> Action {
    Action::Read { address: STTS22H::ADDRESS, register: register.spec_offset(), len }
}

/// The write of `value` to `register`.
pub open spec fn write_of(register: Reg, value: u8) -> Action {
    Action::Write { address: STTS22H::ADDRESS, register: register.spec_offset(), value }
}

/// The phase that follows `phase` on `event`, and the driver's answer, where
/// the pause between two polls is `poll_interval_ms`.
///
/// An event that the phase does not wait for ends the operation with an error.
pub open spec fn after(phase: Phase, poll_interval_ms: u64, event: Event) -> (Phase, Step) {
    match (phase, event) {
        (Phase::Configuring, Event::Written) => (Phase::Idle, Step::Done(Ok(Reply::Configured))),
        (Phase::Identifying, Event::Byte(id)) => (Phase::Idle, Step::Done(Ok(Reply::Identity(id)))),
        (Phase::Checking, Event::Byte(bits)) => (
            Phase::Idle,
            Step::Done(Ok(Reply::Status(Status(bits)))),
        ),
        (Phase::ReadingCtrl, Event::Byte(ctrl)) => (
            Phase::Triggering,
            Step::Perform(write_of(Reg::Ctrl, ctrl | Ctrl::ONE_SHOT)),
        ),
        (Phase::Triggering, Event::Written) => (
            Phase::Polling,
            Step::Perform(read_of(Reg::Status, 1)),
        ),
        (Phase::Polling, Event::Byte(bits)) => if Status(bits).spec_busy() {
            (Phase::Waiting, Step::Perform(Action::Sleep { millis: poll_interval_ms }))
        } else {
            (Phase::ReadingOut, Step::Perform(read_of(Reg::TempLOut, 2)))
        },
        (Phase::Waiting, Event::Elapsed) => (
            Phase::Polling,
            Step::Perform(read_of(Reg::Status, 1)),
        ),
        (Phase::ReadingOut, Event::Pair(low, high)) => (
            Phase::Idle,
            Step::Done(
                Ok(Reply::Temperature(Temperature { centi_celsius: sample_value(low, high) as i16 })),
            ),
        ),
        _ => (Phase::Idle, Step::Done(Err(BusError))),
    }
}

/// Driver of the temperature sensor.
///
/// The driver makes no transfer itself. Each operation starts with a call of
/// `init`, `id`, `status` or `temperature`, which returns the first action.
/// The caller performs the action and reports its outcome to `step`, which
/// answers with the next action or with the result of the operation.
#[derive(Clone, Copy, PartialEq, Eq, Debug)]
pub struct STTS22H {
    phase: Phase,
    poll_interval_ms: u64,
}

impl STTS22H {
    /// Address of the sensor on the bus, in 7 bits.
    pub const ADDRESS: u8 = 0x38;
    /// Content of the identity register.
    pub const WHOAMI: u8 = 0xA0;
    /// Pause between two polls of the status register, unless another is chosen.
    pub const POLL_INTERVAL_MS: u64 = 100;

    pub closed spec fn spec_phase(&self) -> Phase {
        self.phase
    }

    pub closed spec fn spec_poll_interval_ms(&self) -> u64 {
        self.poll_interval_ms
    }

    /// What holds of every driver: the pause between two polls is neither
    /// zero nor longer than the default.
    pub open spec fn well_formed(&self) -> bool {
        1 <= self.spec_poll_interval_ms() <= STTS22H::POLL_INTERVAL_MS
    }

    /// A driver at rest that pauses 100 ms between two polls.
    pub fn new() -> (driver: STTS22H)
        ensures
            driver.well_formed(),
            driver.spec_phase() == Phase::Idle,
            driver.spec_poll_interval_ms() == STTS22H::POLL_INTERVAL_MS,
    {
        STTS22H { phase: Phase::Idle, poll_interval_ms: STTS22H::POLL_INTERVAL_MS }
    }

    /// A driver at rest that pauses `millis` milliseconds between two polls.
    /// The pause must be at least 1 ms, so that polling never spins, and at
    /// most 100 ms.
    pub fn with_poll_interval(millis: u64) -> (driver: Option<STTS22H>)
        ensures
            driver is Some <==> 1 <= millis <= STTS22H::POLL_INTERVAL_MS,
            driver matches Some(d) ==> d.well_formed() && d.spec_phase() == Phase::Idle
                && d.spec_poll_interval_ms() == millis,
    {
        if 1 <= millis && millis <= STTS22H::POLL_INTERVAL_MS {
            Some(STTS22H { phase: Phase::Idle, poll_interval_ms: millis })
        } else {
            None
        }
    }

    /// Where the driver stands.
    #[verifier::when_used_as_spec(spec_phase)]
    pub fn phase(&self) -> (phase: Phase)
        ensures
            phase == self.spec_phase(),
    {
        self.phase
    }

    /// Pause between two polls of the status register, in milliseconds.
    #[verifier::when_used_as_spec(spec_poll_interval_ms)]
    pub fn poll_interval_ms(&self) -> (millis: u64)
        ensures
            millis == self.spec_poll_interval_ms(),
    {
        self.poll_interval_ms
    }

    /// Starts the configuration of the sensor: the control register is set to
    /// address auto-increment alone, so that the two sample registers can be
    /// read in one transaction. An operation that was in flight is given up.
    pub fn init(&mut self) -> (action: Action)
        ensures
            action == write_of(Reg::Ctrl, Ctrl::IF_ADD_INC),
            final(self).spec_phase() == Phase::Configuring,
            final(self).spec_poll_interval_ms() == old(self).spec_poll_interval_ms(),
    {
        self.phase = Phase::Configuring;
        Action::Write {
            address: STTS22H::ADDRESS,
            register: Reg::Ctrl.offset(),
            value: Ctrl::IF_ADD_INC,
        }
    }

    /// Starts a read of the identity register. An operation that was in
    /// flight is given up.
    pub fn id(&mut self) -> (action: Action)
        ensures
            action == read_of(Reg::WhoAmI, 1),
            final(self).spec_phase() == Phase::Identifying,
            final(self).spec_poll_interval_ms() == old(self).spec_poll_interval_ms(),
    {
        self.phase = Phase::Identifying;
        Action::Read { address: STTS22H::ADDRESS, register: Reg::WhoAmI.offset(), len: 1 }
    }

    /// Starts a read of the status register, which clears the threshold flags
    /// on the sensor. An operation that was in flight is given up.
    pub fn status(&mut self) -> (action: Action)
        ensures
            action == read_of(Reg::Status, 1),
            final(self).spec_phase() == Phase::Checking,
            final(self).spec_poll_interval_ms() == old(self).spec_poll_interval_ms(),
    {
        self.phase = Phase::Checking;
        Action::Read { address: STTS22H::ADDRESS, register: Reg::Status.offset(), len: 1 }
    }

    /// Starts a one-shot acquisition with a read of the control register. An
    /// operation that was in flight is given up.
    pub fn temperature(&mut self) -> (action: Action)
        ensures
            action == read_of(Reg::Ctrl, 1),
            final(self).spec_phase() == Phase::ReadingCtrl,
            final(self).spec_poll_interval_ms() == old(self).spec_poll_interval_ms(),
    {
        self.phase = Phase::ReadingCtrl;
        Action::Read { address: STTS22H::ADDRESS, register: Reg::Ctrl.offset(), len: 1 }
    }

    /// Takes the outcome of the action that was asked for last and answers
    /// with the next action, or with the result when the operation is over.
    pub fn step(&mut self, event: Event) -> (step: Step)
        ensures
            (final(self).spec_phase(), step) == after(
                old(self).spec_phase(),
                old(self).spec_poll_interval_ms(),
                event,
            ),
            final(self).spec_poll_interval_ms() == old(self).spec_poll_interval_ms(),
    {
        let (phase, step) = match (self.phase, event) {
            (Phase::Configuring, Event::Written) => (Phase::Idle, Step::Done(Ok(Reply::Configured))),
            (Phase::Identifying, Event::Byte(id)) => (
                Phase::Idle,
                Step::Done(Ok(Reply::Identity(id))),
            ),
            (Phase::Checking, Event::Byte(bits)) => (
                Phase::Idle,
                Step::Done(Ok(Reply::Status(Status(bits)))),
            ),
            (Phase::ReadingCtrl, Event::Byte(ctrl)) => (
                Phase::Triggering,
                Step::Perform(
                    Action::Write {
                        address: STTS22H::ADDRESS,
                        register: Reg::Ctrl.offset(),
                        value: ctrl | Ctrl::ONE_SHOT,
                    },
                ),
            ),
            (Phase::Triggering, Event::Written) | (Phase::Waiting, Event::Elapsed) => (
                Phase::Polling,
                Step::Perform(
                    Action::Read {
                        address: STTS22H::ADDRESS,
                        register: Reg::Status.offset(),
                        len: 1,
                    },
                ),
            ),
            (Phase::Polling, Event::Byte(bits)) => {
                if Status(bits).busy() {
                    (Phase::Waiting, Step::Perform(Action::Sleep { millis: self.poll_interval_ms }))
                } else {
                    (
                        Phase::ReadingOut,
                        Step::Perform(
                            Action::Read {
                                address: STTS22H::ADDRESS,
                                register: Reg::TempLOut.offset(),
                                len: 2,
                            },
                        ),
                    )
                }
            },
            (Phase::ReadingOut, Event::Pair(low, high)) => (
                Phase::Idle,
                Step::Done(Ok(Reply::Temperature(Temperature::from_le_bytes(low, high)))),
            ),
            _ => (Phase::Idle, Step::Done(Err(BusError))),
        };
        self.phase = phase;
        step
    }
}

/// The answers of a driver that starts in `phase` to `events`, one per event,
/// and the phase in which the last of them leaves it.
pub open spec fn run(phase: Phase, poll_interval_ms: u64, events: Seq<Event>) -> (Phase, Seq<Step>)
    decreases events.len(),
{
    if events.len() == 0 {
        (phase, Seq::empty())
    } else {
        let first = after(phase, poll_interval_ms, events[0]);
        let rest = run(first.0, poll_interval_ms, events.drop_first());
        (rest.0, seq![first.1] + rest.1)
    }
}

/// What the firmware reports while the conversion runs: each status byte of
/// `busy`, and the end of the pause that follows it.
pub open spec fn polling_events(busy: Seq<u8>) -> Seq<Event>
    decreases busy.len(),
{
    if busy.len() == 0 {
        Seq::empty()
    } else {
        seq![Event::Byte(busy[0]), Event::Elapsed] + polling_events(busy.drop_first())
    }
}

/// What the driver asks for while the conversion runs, over `polls` polls that
/// find the sensor busy: a pause, then the next read of the status register.
pub open spec fn polling_steps(polls: nat, poll_interval_ms: u64) -> Seq<Step>
    decreases polls,
{
    if polls == 0 {
        Seq::empty()
    } else {
        seq![
            Step::Perform(Action::Sleep { millis: poll_interval_ms }),
            Step::Perform(read_of(Reg::Status, 1)),
        ] + polling_steps((polls - 1) as nat, poll_interval_ms)
    }
}

/// Running over two runs of events in a row is running over the first and
/// going on from where it ended.
proof fn lemma_run_concat(phase: Phase, poll_interval_ms: u64, head: Seq<Event>, tail: Seq<Event>)
    ensures
        run(phase, poll_interval_ms, head + tail) == ({
            let first = run(phase, poll_interval_ms, head);
            let second = run(first.0, poll_interval_ms, tail);
            (second.0, first.1 + second.1)
        }),
    decreases head.len(),
{
    if head.len() == 0 {
        assert(head + tail =~= tail);
        let second = run(phase, poll_interval_ms, tail);
        assert(Seq::<Step>::empty() + second.1 =~= second.1);
    } else {
        let next = after(phase, poll_interval_ms, head[0]);
        assert((head + tail)[0] == head[0]);
        assert((head + tail).drop_first() =~= head.drop_first() + tail);
        lemma_run_concat(next.0, poll_interval_ms, head.drop_first(), tail);
        let first = run(phase, poll_interval_ms, head);
        let second = run(first.0, poll_interval_ms, tail);
        let inner = run(next.0, poll_interval_ms, head.drop_first());
        assert(seq![next.1] + (inner.1 + second.1) =~= (seq![next.1] + inner.1) + second.1);
    }
}

/// While the status register shows a running conversion, the driver pauses
/// and polls again, and is polling still at the end.
proof fn lemma_polling_transcript(poll_interval_ms: u64, busy: Seq<u8>)
    requires
        forall|i: int| 0 <= i < busy.len() ==> Status(#[trigger] busy[i]).spec_busy(),
    ensures
        run(Phase::Polling, poll_interval_ms, polling_events(busy)) == (
            Phase::Polling,
            polling_steps(busy.len(), poll_interval_ms),
        ),
    decreases busy.len(),
{
    if busy.len() > 0 {
        let round = seq![Event::Byte(busy[0]), Event::Elapsed];
        let rest = busy.drop_first();
        assert(Status(busy[0]).spec_busy());
        assert forall|i: int| 0 <= i < rest.len() implies Status(#[trigger] rest[i]).spec_busy() by {
            assert(rest[i] == busy[i + 1]);
        }
        lemma_polling_transcript(poll_interval_ms, rest);
        lemma_run_concat(Phase::Polling, poll_interval_ms, round, polling_events(rest));
        reveal_with_fuel(run, 3);
        assert(round.drop_first() =~= seq![Event::Elapsed]);
        assert(round.drop_first().drop_first() =~= Seq::<Event>::empty());
        assert(run(Phase::Polling, poll_interval_ms, round).1 =~= seq![
            Step::Perform(Action::Sleep { millis: poll_interval_ms }),
            Step::Perform(read_of(Reg::Status, 1)),
        ]);
    }
}

/// The order of a one-shot acquisition. After `temperature` has asked for the
/// control register, and the sensor answers with `ctrl`, then with the status
/// bytes `busy` while it converts, then with the status byte `ready` and the
/// sample bytes `low`, `high`, the driver asks in turn for: the write of
/// `ctrl` with the one-shot bit set; a read of the status register; for each
/// busy status a pause and one more read of the status register; the read of
/// the two sample registers. It then returns the decoded sample and is at rest.
pub proof fn lemma_acquisition_transcript(
    poll_interval_ms: u64,
    ctrl: u8,
    busy: Seq<u8>,
    ready: u8,
    low: u8,
    high: u8,
)
    requires
        forall|i: int| 0 <= i < busy.len() ==> Status(#[trigger] busy[i]).spec_busy(),
        !Status(ready).spec_busy(),
    ensures
        run(
            Phase::ReadingCtrl,
            poll_interval_ms,
            seq![Event::Byte(ctrl), Event::Written] + polling_events(busy) + seq![
                Event::Byte(ready),
                Event::Pair(low, high),
            ],
        ) == (
            Phase::Idle,
            seq![
                Step::Perform(write_of(Reg::Ctrl, ctrl | Ctrl::ONE_SHOT)),
                Step::Perform(read_of(Reg::Status, 1)),
            ] + polling_steps(busy.len(), poll_interval_ms) + seq![
                Step::Perform(read_of(Reg::TempLOut, 2)),
                Step::Done(
                    Ok(
                        Reply::Temperature(
                            Temperature { centi_celsius: sample_value(low, high) as i16 },
                        ),
                    ),
                ),
            ],
        ),
{
    let trigger = seq![Event::Byte(ctrl), Event::Written];
    let read_out = seq![Event::Byte(ready), Event::Pair(low, high)];
    reveal_with_fuel(run, 3);
    assert(trigger.drop_first() =~= seq![Event::Written]);
    assert(trigger.drop_first().drop_first() =~= Seq::<Event>::empty());
    assert(run(Phase::ReadingCtrl, poll_interval_ms, trigger) == (
        Phase::Polling,
        seq![
            Step::Perform(write_of(Reg::Ctrl, ctrl | Ctrl::ONE_SHOT)),
            Step::Perform(read_of(Reg::Status, 1)),
        ],
    )) by {
        assert(run(Phase::ReadingCtrl, poll_interval_ms, trigger).1 =~= seq![
            Step::Perform(write_of(Reg::Ctrl, ctrl | Ctrl::ONE_SHOT)),
            Step::Perform(read_of(Reg::Status, 1)),
        ]);
    }
    assert(read_out.drop_first() =~= seq![Event::Pair(low, high)]);
    assert(read_out.drop_first().drop_first() =~= Seq::<Event>::empty());
    assert(run(Phase::Polling, poll_interval_ms, read_out) == (
        Phase::Idle,
        seq![
            Step::Perform(read_of(Reg::TempLOut, 2)),
            Step::Done(
                Ok(Reply::Temperature(Temperature { centi_celsius: sample_value(low, high) as i16 })),
            ),
        ],
    )) by {
        assert(run(Phase::Polling, poll_interval_ms, read_out).1 =~= seq![
            Step::Perform(read_of(Reg::TempLOut, 2)),
            Step::Done(
                Ok(Reply::Temperature(Temperature { centi_celsius: sample_value(low, high) as i16 })),
            ),
        ]);
    }
    lemma_polling_transcript(poll_interval_ms, busy);
    lemma_run_concat(Phase::ReadingCtrl, poll_interval_ms, trigger, polling_events(busy));
    lemma_run_concat(
        Phase::ReadingCtrl,
        poll_interval_ms,
        trigger + polling_events(busy),
        read_out,
    );
}

/// The two sample registers are read only in answer to a status byte that
/// shows the conversion complete.
pub proof fn lemma_sample_read_follows_ready(phase: Phase, poll_interval_ms: u64, event: Event)
    requires
        after(phase, poll_interval_ms, event).1 == Step::Perform(read_of(Reg::TempLOut, 2)),
    ensures
        phase == Phase::Polling,
        event matches Event::Byte(bits) && !Status(bits).spec_busy(),
{
}

/// Polling never spins: the status register is polled only after the write
/// that triggers the conversion or after a pause, and a pause is as long as
/// the driver was made with.
pub proof fn lemma_polls_are_paced(phase: Phase, poll_interval_ms: u64, event: Event)
    ensures
        after(phase, poll_interval_ms, event).1 == Step::Perform(read_of(Reg::Status, 1)) ==> (phase
            == Phase::Triggering && event == Event::Written) || (phase == Phase::Waiting && event
            == Event::Elapsed),
        after(phase, poll_interval_ms, event).1 matches Step::Perform(Action::Sleep { millis })
            ==> millis == poll_interval_ms && phase == Phase::Polling,
{
}

/// A bus error ends the operation, in whatever phase it arrives: the driver
/// reports it and is at rest.
pub proof fn lemma_bus_error_ends_operation(phase: Phase, poll_interval_ms: u64)
    ensures
        after(phase, poll_interval_ms, Event::BusError) == (Phase::Idle, Step::Done(Err(BusError))),
{
}

/// A bus error after any run of events is the last answer of the driver, and
/// leaves it at rest.
pub proof fn lemma_bus_error_propagates(phase: Phase, poll_interval_ms: u64, events: Seq<Event>)
    ensures
        run(phase, poll_interval_ms, events.push(Event::BusError)).0 == Phase::Idle,
        run(phase, poll_interval_ms, events.push(Event::BusError)).1.len() == events.len() + 1,
        run(phase, poll_interval_ms, events.push(Event::BusError)).1.last() == Step::Done(
            Err(BusError),
        ),
{
    let failure = seq![Event::BusError];
    assert(events.push(Event::BusError) =~= events + failure);
    lemma_run_concat(phase, poll_interval_ms, events, failure);
    lemma_run_len(phase, poll_interval_ms, events);
    let before = run(phase, poll_interval_ms, events);
    reveal_with_fuel(run, 2);
    assert(failure.drop_first() =~= Seq::<Event>::empty());
    assert(run(before.0, poll_interval_ms, failure).1 =~= seq![Step::Done(Err(BusError))]);
}

/// The driver answers each event once.
pub proof fn lemma_run_len(phase: Phase, poll_interval_ms: u64, events: Seq<Event>)
    ensures
        run(phase, poll_interval_ms, events).1.len() == events.len(),
    decreases events.len(),
{
    if events.len() > 0 {
        let first = after(phase, poll_interval_ms, events[0]);
        lemma_run_len(first.0, poll_interval_ms, events.drop_first());
    }
}

/// The identity is the byte that the sensor sent, whatever it is, and the
/// status is a snapshot of the byte that the sensor sent: the driver keeps
/// nothing of either, so that equal bytes give equal results on every call.
pub proof fn lemma_single_reads_keep_nothing(poll_interval_ms: u64, byte: u8)
    ensures
        after(Phase::Identifying, poll_interval_ms, Event::Byte(byte)) == (
            Phase::Idle,
            Step::Done(Ok(Reply::Identity(byte))),
        ),
        after(Phase::Checking, poll_interval_ms, Event::Byte(byte)) == (
            Phase::Idle,
            Step::Done(Ok(Reply::Status(Status(byte)))),
        ),
{
}

/// Triggering a conversion changes nothing but the one-shot bit: every other
/// bit of the control register is written back as it was read, so the
/// address auto-increment that `init` switched on stays on.
pub proof fn lemma_trigger_keeps_configuration(ctrl: u8)
    ensures
        (ctrl | Ctrl::ONE_SHOT) & Ctrl::ONE_SHOT == Ctrl::ONE_SHOT,
        (ctrl | Ctrl::ONE_SHOT) & !Ctrl::ONE_SHOT == ctrl & !Ctrl::ONE_SHOT,
        ctrl & Ctrl::IF_ADD_INC != 0 ==> (ctrl | Ctrl::ONE_SHOT) & Ctrl::IF_ADD_INC != 0,
{
    assert((ctrl | 0x01u8) & 0x01u8 == 0x01u8) by (bit_vector);
    assert((ctrl | 0x01u8) & !0x01u8 == ctrl & !0x01u8) by (bit_vector);
    assert(ctrl & 0x08u8 != 0 ==> (ctrl | 0x01u8) & 0x08u8 != 0) by (bit_vector);
}

/// The parts in order, with the separator between each two neighbours.
pub open spec fn joined(parts: Seq<Seq<char>>, separator: Seq<char>) -> Seq<char>
    decreases parts.len(),
{
    if parts.len() == 0 {
        Seq::empty()
    } else if parts.len() == 1 {
        parts[0]
    } else {
        joined(parts.drop_last(), separator) + separator + parts.last()
    }
}

/// Joining one more part appends it, after a separator unless it is the first.
proof fn lemma_joined_push(parts: Seq<Seq<char>>, part: Seq<char>, separator: Seq<char>)
    ensures
        joined(parts.push(part), separator) == if parts.len() == 0 {
            part
        } else {
            joined(parts, separator) + separator + part
        },
{
    assert(parts.push(part).drop_last() =~= parts);
    assert(parts.push(part).last() == part);
}

} // verus!
