//! The clock activation sequencer: which register operation comes next.
//!
//! The sequencer touches no hardware. Whoever drives it performs each
//! [`Action`] on the device and reports back with an [`Event`].

use vstd::prelude::*;

use crate::rcc::Clocks;
use crate::solver::{flash_wait_states, Oscillator, Request, Solution};

verus! {

/// How far the activation has come. The phases are passed in the order written,
/// some of them skipped, none of them entered again once left.
#[derive(Clone, Copy, Debug, PartialEq, Eq, Structural)]
pub enum Phase {
    /// Nothing has been asked for yet
    Idle,
    /// The flash wait states have been raised
    LatencyRaised,
    /// The external oscillator has been switched on
    HseEnabled,
    /// The external oscillator has been asked whether it is stable
    HsePolled,
    /// The input divider of the external oscillator has been programmed
    PredivSet,
    /// The PLL has its input and its multiplier
    PllConfigured,
    /// The PLL has been switched on
    PllEnabled,
    /// The PLL has been asked whether it is locked
    PllPolled,
    /// Prescalers and clock source have been written
    Switched,
    /// The internal oscillator has been switched off
    HsiDisabled,
    /// Everything is done: the clocks are frozen
    Frozen,
}

/// What the driver reports when it asks for the next action.
#[derive(Clone, Copy, Debug, PartialEq, Eq, Structural)]
pub enum Event {
    /// The last action was carried out (or there was none yet)
    Performed,
    /// The flag that the last action read is set
    Ready,
    /// The flag that the last action read is clear
    NotReady,
}

/// One operation on the registers, for the driver to carry out.
#[derive(Clone, Copy, Debug, PartialEq, Eq, Structural)]
pub enum Action {
    /// Write `bits` to the LATENCY field of the flash access control register
    SetFlashLatency {
        /// Number of wait states
        bits: u8,
    },
    /// Switch the external oscillator on
    EnableHse {
        /// Whether to bypass the clock driving circuitry
        bypass: bool,
    },
    /// Read the flag that tells whether the external oscillator is stable
    PollHseReady,
    /// Write `bits` to the input divider of the external oscillator
    SetHsePrediv {
        /// Code of the divider: what it divides by, less 1
        bits: u8,
    },
    /// Select the input of the PLL and write its multiplier
    ConfigurePll {
        /// Whether the external oscillator feeds the PLL
        from_hse: bool,
        /// Code of the multiplier
        mul_bits: u8,
    },
    /// Switch the PLL on
    EnablePll,
    /// Read the flag that tells whether the PLL is locked
    PollPllReady,
    /// Write the three prescalers and the clock source, in one write of the register
    SwitchClock {
        /// Whether the write keeps the other fields of the register, which hold what
        /// `ConfigurePll` wrote, or resets them
        keep: bool,
        /// Code of the clock source: 0 internal oscillator, 1 external oscillator, 2 PLL
        sw: u8,
        /// Code of the AHB prescaler
        hpre_bits: u8,
        /// Code of the APB1 prescaler
        ppre1_bits: u8,
        /// Code of the APB2 prescaler
        ppre2_bits: u8,
    },
    /// Switch the internal oscillator off
    DisableHsi,
    /// Nothing is left to do
    Finished,
}

impl Phase {
    /// The place of the phase in the sequence.
    pub open spec fn rank(self) -> int {
        match self {
            Phase::Idle => 0,
            Phase::LatencyRaised => 1,
            Phase::HseEnabled => 2,
            Phase::HsePolled => 3,
            Phase::PredivSet => 4,
            Phase::PllConfigured => 5,
            Phase::PllEnabled => 6,
            Phase::PllPolled => 7,
            Phase::Switched => 8,
            Phase::HsiDisabled => 9,
            Phase::Frozen => 10,
        }
    }

    /// Whether the phase waits for a flag of the hardware.
    pub open spec fn waits(self) -> bool {
        self == Phase::HsePolled || self == Phase::PllPolled
    }
}

/// What is to be activated: the oscillator of the request and its solution.
#[derive(Clone, Copy, Debug, PartialEq, Eq, Structural)]
pub struct Plan {
    /// The external oscillator, if one is used
    pub hse: Option<Oscillator>,
    /// Divider codes and frequencies
    pub solution: Solution,
}

impl Request {
    /// The plan that activates the request.
    pub open spec fn plan(self) -> Plan {
        Plan { hse: self.hse, solution: self.solution() }
    }
}

impl Plan {
    /// A plan that a sequencer can hold: the oscillator's divider is 1 to 16.
    pub open spec fn wf(self) -> bool {
        self.hse matches Some(osc) ==> 1 <= osc.divider <= 16
    }

    /// Code of the clock source that the plan ends on.
    pub open spec fn sw(self) -> u8 {
        if self.solution.pllmul_bits is Some {
            0b10
        } else if self.hse is Some {
            0b01
        } else {
            0b00
        }
    }

    /// The one write that sets the prescalers and selects the clock source.
    pub open spec fn switch(self) -> Action {
        Action::SwitchClock {
            keep: self.solution.pllmul_bits is Some,
            sw: self.sw(),
            hpre_bits: self.solution.hpre_bits,
            ppre1_bits: self.solution.ppre1_bits,
            ppre2_bits: self.solution.ppre2_bits,
        }
    }

    /// What follows once the oscillators are settled: the PLL, if it is used, else
    /// the switch.
    pub open spec fn after_oscillator(self) -> (Phase, Action) {
        match self.solution.pllmul_bits {
            Some(mul_bits) => (
                Phase::PllConfigured,
                Action::ConfigurePll { from_hse: self.hse is Some, mul_bits },
            ),
            None => (Phase::Switched, self.switch()),
        }
    }

    /// The phase that follows `phase` on `event`, and the action that leads there.
    pub open spec fn next(self, phase: Phase, event: Event) -> (Phase, Action) {
        match phase {
            Phase::Idle => (
                Phase::LatencyRaised,
                Action::SetFlashLatency { bits: self.solution.latency },
            ),
            Phase::LatencyRaised => match self.hse {
                Some(osc) => (Phase::HseEnabled, Action::EnableHse { bypass: osc.bypass }),
                None => self.after_oscillator(),
            },
            Phase::HseEnabled => (Phase::HsePolled, Action::PollHseReady),
            Phase::HsePolled => match self.hse {
                Some(osc) if event == Event::Ready => (
                    Phase::PredivSet,
                    Action::SetHsePrediv { bits: (osc.divider - 1) as u8 },
                ),
                _ => (Phase::HsePolled, Action::PollHseReady),
            },
            Phase::PredivSet => self.after_oscillator(),
            Phase::PllConfigured => (Phase::PllEnabled, Action::EnablePll),
            Phase::PllEnabled => (Phase::PllPolled, Action::PollPllReady),
            Phase::PllPolled => if event == Event::Ready {
                (Phase::Switched, self.switch())
            } else {
                (Phase::PllPolled, Action::PollPllReady)
            },
            Phase::Switched => if self.hse is Some {
                (Phase::HsiDisabled, Action::DisableHsi)
            } else {
                (Phase::Frozen, Action::Finished)
            },
            Phase::HsiDisabled => (Phase::Frozen, Action::Finished),
            Phase::Frozen => (Phase::Frozen, Action::Finished),
        }
    }
}

impl Plan {
    /// The actions that the sequencer gives from `phase` on, one for each of `events`.
    pub open spec fn run(self, phase: Phase, events: Seq<Event>) -> Seq<Action>
        decreases events.len(),
    {
        if events.len() == 0 {
            Seq::empty()
        } else {
            let (after, action) = self.next(phase, events.first());
            seq![action] + self.run(after, events.drop_first())
        }
    }

    /// The phase that the sequencer has reached from `phase` when `events` have come in.
    pub open spec fn phase_after(self, phase: Phase, events: Seq<Event>) -> Phase
        decreases events.len(),
    {
        if events.len() == 0 {
            phase
        } else {
            self.phase_after(self.next(phase, events.first()).0, events.drop_first())
        }
    }

    /// A run gives one action for each event.
    pub proof fn lemma_run_len(self, phase: Phase, events: Seq<Event>)
        ensures
            self.run(phase, events).len() == events.len(),
        decreases events.len(),
    {
        if events.len() > 0 {
            self.lemma_run_len(self.next(phase, events.first()).0, events.drop_first());
        }
    }

    /// No phase is entered again once it is left: a step keeps the phase only while a
    /// flag is waited for or when everything is done, and else leads to a later phase.
    pub proof fn lemma_never_back(self, phase: Phase, event: Event)
        ensures
            self.next(phase, event).0.rank() >= phase.rank(),
            self.next(phase, event).0 == phase ==> phase.waits() || phase == Phase::Frozen,
            phase.waits() && event != Event::Ready ==> self.next(phase, event) == (
                phase,
                if phase == Phase::HsePolled {
                    Action::PollHseReady
                } else {
                    Action::PollPllReady
                },
            ),
    {
    }

    /// Once the sequencer has begun, it never touches the flash wait states again.
    pub proof fn lemma_latency_only_at_start(self, phase: Phase, events: Seq<Event>, i: int)
        requires
            phase != Phase::Idle,
            0 <= i < events.len(),
        ensures
            !(self.run(phase, events)[i] is SetFlashLatency),
        decreases events.len(),
    {
        let (after, action) = self.next(phase, events.first());
        self.lemma_run_len(after, events.drop_first());
        if i > 0 {
            self.lemma_latency_only_at_start(after, events.drop_first(), i - 1);
        }
    }

    /// The clock is switched once at most.
    pub proof fn lemma_switch_once(self, phase: Phase, events: Seq<Event>, i: int, j: int)
        requires
            0 <= i < j < events.len(),
            self.run(phase, events)[i] is SwitchClock,
        ensures
            !(self.run(phase, events)[j] is SwitchClock),
        decreases events.len(),
    {
        let (after, action) = self.next(phase, events.first());
        let rest = events.drop_first();
        self.lemma_run_len(after, rest);
        if i > 0 {
            self.lemma_switch_once(after, rest, i - 1, j - 1);
        } else {
            assert(after == Phase::Switched);
            self.lemma_no_switch_after(after, rest, j - 1);
        }
    }

    /// From the switch on, no action switches the clock.
    proof fn lemma_no_switch_after(self, phase: Phase, events: Seq<Event>, i: int)
        requires
            phase.rank() >= Phase::Switched.rank(),
            0 <= i < events.len(),
        ensures
            !(self.run(phase, events)[i] is SwitchClock),
        decreases events.len(),
    {
        let (after, action) = self.next(phase, events.first());
        self.lemma_run_len(after, events.drop_first());
        if i > 0 {
            self.lemma_no_switch_after(after, events.drop_first(), i - 1);
        }
    }
}

impl Plan {
    /// Whether a sequencer that began at the beginning can be in `phase`: the phases of
    /// the external oscillator are passed only with one.
    pub open spec fn passes(self, phase: Phase) -> bool {
        phase == Phase::HseEnabled || phase == Phase::HsePolled || phase == Phase::PredivSet
            || phase == Phase::HsiDisabled ==> self.hse is Some
    }

    /// A flag that is reported set leads on: from every phase but the last, the next
    /// phase is a later one, and it is one that the sequencer can be in.
    pub proof fn lemma_ready_leads_on(self, phase: Phase)
        requires
            self.passes(phase),
        ensures
            self.passes(self.next(phase, Event::Ready).0),
            phase != Phase::Frozen ==> self.next(phase, Event::Ready).0.rank() > phase.rank(),
            self.next(phase, Event::Ready).1 == Action::Finished <==> self.next(
                phase,
                Event::Ready,
            ).0 == Phase::Frozen,
    {
    }

    /// With every flag reported set, each event brings the sequencer one phase further
    /// at least, until it is done.
    proof fn lemma_ready_advances(self, phase: Phase, events: Seq<Event>)
        requires
            self.passes(phase),
            forall|i: int| 0 <= i < events.len() ==> events[i] == Event::Ready,
        ensures
            self.phase_after(phase, events).rank() >= phase.rank() + events.len()
                || self.phase_after(phase, events) == Phase::Frozen,
        decreases events.len(),
    {
        if events.len() > 0 {
            let after = self.next(phase, events.first()).0;
            self.lemma_ready_leads_on(phase);
            self.lemma_ready_advances(after, events.drop_first());
        }
    }

    /// Hardware that is ready lets the sequencer finish: where every flag is reported
    /// set the first time it is read, ten events bring any plan from the beginning to
    /// the end.
    pub proof fn lemma_ready_finishes(self, events: Seq<Event>)
        requires
            events.len() >= 10,
            forall|i: int| 0 <= i < events.len() ==> events[i] == Event::Ready,
        ensures
            self.phase_after(Phase::Idle, events) == Phase::Frozen,
    {
        self.lemma_ready_advances(Phase::Idle, events);
    }
}

/// The flash wait states are raised before the clock is switched, to what the new
/// system clock needs, and stay as they are from then on: whatever the hardware
/// reports and whenever, the first action of the sequencer sets the wait states of
/// the generated system clock, the switch comes later, and no later action sets the
/// wait states.
pub proof fn lemma_wait_states_precede_switch(request: Request, events: Seq<Event>, j: int)
    requires
        0 <= j < events.len(),
        request.plan().run(Phase::Idle, events)[j] is SwitchClock,
    ensures
        j > 0,
        request.plan().run(Phase::Idle, events)[0] == (Action::SetFlashLatency {
            bits: flash_wait_states(request.sysclk_out()),
        }),
        forall|i: int|
            0 < i < events.len() ==> !(#[trigger] request.plan().run(Phase::Idle, events)[i]
                is SetFlashLatency),
{
    let plan = request.plan();
    let rest = events.drop_first();
    plan.lemma_run_len(Phase::LatencyRaised, rest);
    assert forall|i: int| 0 < i < events.len() implies !(#[trigger] plan.run(Phase::Idle, events)[i]
        is SetFlashLatency) by {
        plan.lemma_latency_only_at_start(Phase::LatencyRaised, rest, i - 1);
    }
}

/// Walks a plan through its phases.
pub struct Sequencer {
    plan: Plan,
    phase: Phase,
}

impl Sequencer {
    #[verifier::type_invariant]
    spec fn inv(self) -> bool {
        self.plan.wf()
    }

    /// The plan that the sequencer activates.
    pub closed spec fn plan(&self) -> Plan {
        self.plan
    }

    /// The phase that the sequencer is in.
    pub closed spec fn phase(&self) -> Phase {
        self.phase
    }

    /// A sequencer that has not begun.
    pub(crate) fn new(plan: Plan) -> (sequencer: Self)
        requires
            plan.wf(),
        ensures
            sequencer.plan() == plan,
            sequencer.phase() == Phase::Idle,
    {
        Sequencer { plan, phase: Phase::Idle }
    }

    /// The phase that the sequencer is in.
    pub fn current_phase(&self) -> (phase: Phase)
        ensures
            phase == self.phase(),
    {
        self.phase
    }

    /// The write that sets the prescalers and selects the clock source.
    fn switch(&self) -> (action: Action)
        ensures
            action == self.plan().switch(),
    {
        let sw: u8 = if self.plan.solution.pllmul_bits.is_some() {
            // SW: PLL selected as system clock
            0b10
        } else if self.plan.hse.is_some() {
            // use HSE as source
            0b01
        } else {
            // use HSI as source
            0b00
        };
        Action::SwitchClock {
            keep: self.plan.solution.pllmul_bits.is_some(),
            sw,
            hpre_bits: self.plan.solution.hpre_bits,
            ppre1_bits: self.plan.solution.ppre1_bits,
            ppre2_bits: self.plan.solution.ppre2_bits,
        }
    }

    /// What follows once the oscillators are settled.
    fn after_oscillator(&self) -> (r: (Phase, Action))
        ensures
            r == self.plan().after_oscillator(),
    {
        match self.plan.solution.pllmul_bits {
            Some(mul_bits) => (
                Phase::PllConfigured,
                Action::ConfigurePll { from_hse: self.plan.hse.is_some(), mul_bits },
            ),
            None => (Phase::Switched, self.switch()),
        }
    }

    /// Takes the report on the last action and gives the next one. Where the last
    /// action read a flag, only `Event::Ready` leads on; any other event has the flag
    /// read again. Elsewhere the event makes no difference.
    pub fn step(&mut self, event: Event) -> (action: Action)
        ensures
            final(self).plan() == old(self).plan(),
            (final(self).phase(), action) == old(self).plan().next(old(self).phase(), event),
    {
        proof {
            use_type_invariant(&*self);
        }
        let (phase, action): (Phase, Action) = match self.phase {
            Phase::Idle => (
                Phase::LatencyRaised,
                Action::SetFlashLatency { bits: self.plan.solution.latency },
            ),
            Phase::LatencyRaised => match self.plan.hse {
                Some(osc) => (Phase::HseEnabled, Action::EnableHse { bypass: osc.bypass }),
                None => self.after_oscillator(),
            },
            Phase::HseEnabled => (Phase::HsePolled, Action::PollHseReady),
            Phase::HsePolled => match (self.plan.hse, event) {
                (Some(osc), Event::Ready) => (
                    Phase::PredivSet,
                    Action::SetHsePrediv { bits: (osc.divider - 1) as u8 },
                ),
                _ => (Phase::HsePolled, Action::PollHseReady),
            },
            Phase::PredivSet => self.after_oscillator(),
            Phase::PllConfigured => (Phase::PllEnabled, Action::EnablePll),
            Phase::PllEnabled => (Phase::PllPolled, Action::PollPllReady),
            Phase::PllPolled => match event {
                Event::Ready => (Phase::Switched, self.switch()),
                _ => (Phase::PllPolled, Action::PollPllReady),
            },
            Phase::Switched => if self.plan.hse.is_some() {
                (Phase::HsiDisabled, Action::DisableHsi)
            } else {
                (Phase::Frozen, Action::Finished)
            },
            Phase::HsiDisabled => (Phase::Frozen, Action::Finished),
            Phase::Frozen => (Phase::Frozen, Action::Finished),
        };
        self.phase = phase;
        action
    }

    /// The frozen clocks, once everything is done and not before.
    pub fn clocks(&self) -> (clocks: Option<Clocks>)
        ensures
            clocks is Some <==> self.phase() == Phase::Frozen,
            clocks matches Some(c) ==> c@ == self.plan().solution.frequencies(),
    {
        match self.phase {
            Phase::Frozen => Some(Clocks::frozen(&self.plan.solution)),
            _ => None,
        }
    }
}

} // verus!
