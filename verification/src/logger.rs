//! The log sink: a set-once slot that holds it, and the rendering of records.

use crate::level::{Level, LevelFilter};
use crate::record::{LogRecord, LEVEL_COLUMNS};
use crate::text::{append_decimal, pad_right};
use vstd::prelude::*;
use vstd::string::*;

verus! {

/// The sink. It holds no state of its own: every record that reaches it is
/// rendered, whatever its level.
#[derive(Clone, Copy, Debug, PartialEq, Eq)]
pub struct Logger;

/// What a call of `Logger::init` found.
#[derive(Clone, Copy, Debug, PartialEq, Eq, Structural)]
pub enum InitOutcome {
    /// The slot was empty: the call installed the sink.
    Installed,
    /// A sink was active already: the call changed nothing.
    AlreadyInitialized,
}

/// What a `SinkSlot` stands for: whether a sink is active, and the threshold
/// that records must pass to reach it.
pub struct SlotView {
    pub installed: bool,
    pub max_level: LevelFilter,
}

impl SlotView {
    /// The slot of a process that has not initialized logging: no sink, and
    /// a threshold that lets nothing through.
    pub open spec fn fresh() -> SlotView {
        SlotView { installed: false, max_level: LevelFilter::Off }
    }

    /// The threshold belongs to the state: `Trace` with a sink, `Off`
    /// without.
    pub open spec fn valid(self) -> bool {
        self.max_level == if self.installed {
            LevelFilter::Trace
        } else {
            LevelFilter::Off
        }
    }

    /// The slot after one call of `Logger::init`.
    pub open spec fn after_init(self) -> SlotView {
        if self.installed {
            self
        } else {
            SlotView { installed: true, max_level: LevelFilter::Trace }
        }
    }

    /// What one call of `Logger::init` on this slot returns.
    pub open spec fn init_outcome(self) -> InitOutcome {
        if self.installed {
            InitOutcome::AlreadyInitialized
        } else {
            InitOutcome::Installed
        }
    }

    /// The slot after `n` calls of `Logger::init` in a row.
    pub open spec fn after_inits(self, n: nat) -> SlotView
        decreases n,
    {
        if n == 0 {
            self
        } else {
            self.after_inits((n - 1) as nat).after_init()
        }
    }

    /// How many of `n` calls of `Logger::init` in a row install the sink.
    pub open spec fn installs(self, n: nat) -> nat
        decreases n,
    {
        if n == 0 {
            0
        } else {
            self.installs((n - 1) as nat) + if self.after_inits((n - 1) as nat).init_outcome()
                == InitOutcome::Installed {
                1nat
            } else {
                0nat
            }
        }
    }
}

/// The place of the process-wide sink. It starts empty and is filled once;
/// nothing empties or refills it. `Logger::init` takes it by exclusive
/// reference, so of callers that race for an empty slot one comes first and
/// installs, and the others find the sink active.
#[derive(Debug)]
pub struct SinkSlot {
    sink: Option<Logger>,
    max_level: LevelFilter,
}

impl View for SinkSlot {
    type V = SlotView;

    closed spec fn view(&self) -> SlotView {
        SlotView { installed: self.sink is Some, max_level: self.max_level }
    }
}

impl SinkSlot {
    #[verifier::type_invariant]
    spec fn well_formed(self) -> bool {
        self@.valid()
    }

    /// An empty slot.
    pub fn new() -> (slot: SinkSlot)
        ensures
            slot@ == SlotView::fresh(),
    {
        SinkSlot { sink: None, max_level: LevelFilter::Off }
    }

    /// Whether a sink is active.
    pub fn is_initialized(&self) -> (b: bool)
        ensures
            b == self@.installed,
    {
        self.sink.is_some()
    }

    /// The threshold that records must pass to reach the sink.
    pub fn max_level(&self) -> (filter: LevelFilter)
        ensures
            filter == self@.max_level,
            self@.valid(),
    {
        proof {
            use_type_invariant(self);
        }
        self.max_level
    }
}

/// The message of the note that a redundant `Logger::init` leaves.
pub open spec fn redundant_init_message() -> Seq<char> {
    "Logger already initialized"@
}

impl InitOutcome {
    /// The record that the call leaves behind: none where it installed the
    /// sink, a note at trace level where a sink was active already.
    pub fn note(self) -> (note: Option<(Level, String)>)
        ensures
            match note {
                None => self == InitOutcome::Installed,
                Some((level, message)) => self == InitOutcome::AlreadyInitialized && level
                    == Level::Trace && message@ == redundant_init_message(),
            },
    {
        match self {
            InitOutcome::Installed => None,
            InitOutcome::AlreadyInitialized => Some(
                (Level::Trace, String::from_str("Logger already initialized")),
            ),
        }
    }
}

impl Logger {
    /// Whether the sink takes records of `level`: it takes all of them.
    pub open spec fn accepts(level: Level) -> bool {
        true
    }

    /// Installs the sink in `slot` unless one is active there.
    ///
    /// The call that finds the slot empty fills it and opens the threshold
    /// to every level. Any other call leaves the slot as it is; its outcome
    /// carries a trace-level note of the redundant attempt. No call fails.
    pub fn init(slot: &mut SinkSlot) -> (outcome: InitOutcome)
        ensures
            final(slot)@ == old(slot)@.after_init(),
            outcome == old(slot)@.init_outcome(),
    {
        if slot.sink.is_some() {
            InitOutcome::AlreadyInitialized
        } else {
            *slot = SinkSlot { sink: Some(Logger), max_level: LevelFilter::Trace };
            InitOutcome::Installed
        }
    }

    /// Whether the sink takes records of `level`: it takes every level.
    pub fn enabled(&self, level: Level) -> (b: bool)
        ensures
            b == Self::accepts(level),
            b,
    {
        true
    }

    /// Renders `record` as the one line that goes to the diagnostic stream.
    ///
    /// The record must carry its source file and line. Every level is
    /// rendered, so the result is never `None`.
    pub fn log(&self, record: &LogRecord) -> (out: Option<String>)
        requires
            record.located(),
        ensures
            out is Some,
            out->0@ == record.layout(),
    {
        if !self.enabled(record.level) {
            return None;
        }
        let mut text = record.level.label();
        pad_right(&mut text, LEVEL_COLUMNS);
        proof {
            reveal_strlit(" ");
            reveal_strlit(" | ");
            reveal_strlit(":");
        }
        text.append(" ");
        let stamp = record.timestamp.render();
        text.append(stamp.as_str());
        text.append(" | ");
        match &record.file {
            Some(file) => text.append(file.as_str()),
            None => {},
        }
        text.append(":");
        match record.line {
            Some(line) => append_decimal(&mut text, line),
            None => {},
        }
        text.append(" ");
        text.append(record.message.as_str());
        assert(text@ =~= record.layout());
        Some(text)
    }

    /// Writes out what the sink has buffered: nothing, as it buffers nothing.
    pub fn flush(&self) {
    }
}

/// Of any number of calls of `Logger::init` on a slot that starts empty,
/// exactly one installs the sink: the first. Every later call finds the sink
/// active, reports so, and leaves the slot as the first call left it.
pub proof fn lemma_init_installs_exactly_once(n: nat)
    requires
        n >= 1,
    ensures
        SlotView::fresh().installs(n) == 1,
        SlotView::fresh().after_inits(n) == SlotView::fresh().after_init(),
        SlotView::fresh().after_inits(n).installed,
        SlotView::fresh().after_inits(n).init_outcome() == InitOutcome::AlreadyInitialized,
    decreases n,
{
    if n > 1 {
        lemma_init_installs_exactly_once((n - 1) as nat);
    } else {
        assert(SlotView::fresh().after_inits(0) == SlotView::fresh());
        assert(SlotView::fresh().installs(0) == 0);
    }
}

/// On any slot, whatever its state, a run of calls of `Logger::init` installs
/// the sink at most once: once where the slot was empty, never where it was
/// not. After the first call nothing changes any more, and the slot stays
/// valid throughout.
pub proof fn lemma_init_is_set_once(slot: SlotView, n: nat)
    requires
        slot.valid(),
    ensures
        slot.after_inits(n).valid(),
        slot.installs(n) <= 1,
        slot.installs(n) == 1 <==> (!slot.installed && n >= 1),
        n >= 1 ==> slot.after_inits(n) == slot.after_init(),
    decreases n,
{
    if n >= 1 {
        lemma_init_is_set_once(slot, (n - 1) as nat);
    }
}

/// Once the sink is installed no level is filtered: the threshold that
/// `Logger::init` sets admits every level, and the sink accepts every level.
pub proof fn lemma_initialized_sink_takes_every_level(slot: SlotView, level: Level)
    requires
        slot.valid(),
        slot.installed,
    ensures
        slot.max_level.admits(level),
        Logger::accepts(level),
{
}

} // verus!
