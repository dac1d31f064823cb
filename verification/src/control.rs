use vstd::prelude::*;
use crate::pd::State;
use crate::profiles::{status_at, total_duration_of, AlloyReflowProfile, ReflowStatus};

verus! {

/// A front-panel button.
#[derive(Clone, Copy, PartialEq, Eq, Structural, Debug)]
pub enum Button {
    Left,
    Right,
    Middle,
}

/// What a button press on the profile menu leads to.
#[derive(Clone, Copy, PartialEq, Eq, Structural, Debug)]
pub enum MenuStep {
    /// The highlighted profile is now the one at this index.
    Highlight(usize),
    /// Start a reflow run with the profile at this index.
    Start(usize),
}

/// The menu position after pressing `button` at `selected` in a menu of `count` entries.
pub open spec fn menu_next(selected: int, count: int, button: Button) -> MenuStep {
    match button {
        Button::Left => MenuStep::Highlight(((selected + count - 1) % count) as usize),
        Button::Right => MenuStep::Highlight(((selected + 1) % count) as usize),
        Button::Middle => MenuStep::Start(selected as usize),
    }
}

/// The profile menu: left and right move the highlight one entry back or forward,
/// wrapping around at the ends; the middle button starts the highlighted profile.
pub fn menu_step(selected: usize, count: usize, button: Button) -> (step: MenuStep)
    requires
        selected < count,
        selected + count <= usize::MAX,
    ensures
        step == menu_next(selected as int, count as int, button),
{
    match button {
        Button::Left => MenuStep::Highlight((selected + count - 1) % count),
        Button::Right => MenuStep::Highlight((selected + 1) % count),
        Button::Middle => MenuStep::Start(selected),
    }
}

/// The highlight always stays on an entry of the menu.
pub proof fn law_menu_stays_in_range(selected: int, count: int, button: Button)
    requires
        0 <= selected < count,
        count <= usize::MAX,
    ensures
        menu_next(selected, count, button) matches MenuStep::Highlight(i) ==> i < count,
        menu_next(selected, count, button) matches MenuStep::Start(i) ==> i == selected,
{
}

/// Pressing left and then right, or right and then left, comes back to the same entry.
pub proof fn law_left_right_cancel(selected: int, count: int)
    requires
        0 <= selected < count,
        count <= usize::MAX,
    ensures
        menu_next(selected, count, Button::Left) matches MenuStep::Highlight(l) && menu_next(
            l as int,
            count,
            Button::Right,
        ) == MenuStep::Highlight(selected as usize),
        menu_next(selected, count, Button::Right) matches MenuStep::Highlight(r) && menu_next(
            r as int,
            count,
            Button::Left,
        ) == MenuStep::Highlight(selected as usize),
{
    if selected == 0 {
        assert((selected + count - 1) % count == count - 1) by {
            vstd::arithmetic::div_mod::lemma_small_mod((count - 1) as nat, count as nat);
        }
        assert((count - 1 + 1) % count == 0) by {
            vstd::arithmetic::div_mod::lemma_mod_self_0(count);
        }
    } else {
        assert((selected + count - 1) % count == selected - 1) by {
            vstd::arithmetic::div_mod::lemma_mod_add_multiples_vanish(selected - 1, count);
            vstd::arithmetic::div_mod::lemma_small_mod((selected - 1) as nat, count as nat);
        }
        vstd::arithmetic::div_mod::lemma_small_mod(selected as nat, count as nat);
    }
    if selected == count - 1 {
        vstd::arithmetic::div_mod::lemma_mod_self_0(count);
        assert((0 + count - 1) % count == count - 1) by {
            vstd::arithmetic::div_mod::lemma_small_mod((count - 1) as nat, count as nat);
        }
    } else {
        vstd::arithmetic::div_mod::lemma_small_mod((selected + 1) as nat, count as nat);
        assert((selected + 1 + count - 1) % count == selected) by {
            vstd::arithmetic::div_mod::lemma_mod_add_multiples_vanish(selected, count);
            vstd::arithmetic::div_mod::lemma_small_mod(selected as nat, count as nat);
        }
    }
}

/// Left moves the highlight to the previous entry and right to the next one; left on the
/// first entry wraps to the last, right on the last wraps to the first; the middle button
/// starts the highlighted entry.
pub proof fn law_menu_direction(selected: int, count: int)
    requires
        0 <= selected < count,
        count <= usize::MAX,
    ensures
        selected > 0 ==> menu_next(selected, count, Button::Left) == MenuStep::Highlight(
            (selected - 1) as usize,
        ),
        selected == 0 ==> menu_next(selected, count, Button::Left) == MenuStep::Highlight(
            (count - 1) as usize,
        ),
        selected + 1 < count ==> menu_next(selected, count, Button::Right) == MenuStep::Highlight(
            (selected + 1) as usize,
        ),
        selected + 1 == count ==> menu_next(selected, count, Button::Right)
            == MenuStep::Highlight(0),
        menu_next(selected, count, Button::Middle) == MenuStep::Start(selected as usize),
{
    if selected == 0 {
        vstd::arithmetic::div_mod::lemma_small_mod((count - 1) as nat, count as nat);
    } else {
        vstd::arithmetic::div_mod::lemma_mod_add_multiples_vanish(selected - 1, count);
        vstd::arithmetic::div_mod::lemma_small_mod((selected - 1) as nat, count as nat);
    }
    if selected + 1 == count {
        vstd::arithmetic::div_mod::lemma_mod_self_0(count);
    } else {
        vstd::arithmetic::div_mod::lemma_small_mod((selected + 1) as nat, count as nat);
    }
}

/// The current that the heater may draw.
#[derive(Clone, Copy, PartialEq, Eq, Structural, Debug)]
pub enum CurrentBudget {
    /// The negotiated PD supply's highest current, in milliamperes (the heater keeps a
    /// margin of 0.1 A below it).
    Negotiated(u32),
    /// No PD supply: a plain DC supply, from which 9.9 A are assumed to be allowed.
    AssumedDc,
}

/// What a reflow run knows of its supply before it starts.
#[derive(Clone, Copy, PartialEq, Eq, Structural, Debug)]
pub struct ReflowSupply {
    pub current: CurrentBudget,
    /// The negotiated voltage in millivolts; `None` where the supply rail must be measured.
    pub voltage_mv: Option<u32>,
}

/// The supply for a reflow run, from the PD state: a failed negotiation refuses the run
/// (`None`); a negotiated supply gives its current and voltage; without PD the current is
/// assumed and the voltage is measured.
pub fn reflow_supply(pd_state: State) -> (supply: Option<ReflowSupply>)
    ensures
        supply == (match pd_state {
            State::Good(limits) => Some(
                ReflowSupply {
                    current: CurrentBudget::Negotiated(limits.max_current_ma),
                    voltage_mv: Some(limits.voltage_mv),
                },
            ),
            State::NotAttached => Some(
                ReflowSupply { current: CurrentBudget::AssumedDc, voltage_mv: None },
            ),
            State::Error => None,
        }),
{
    match pd_state {
        State::Good(limits) => Some(
            ReflowSupply {
                current: CurrentBudget::Negotiated(limits.max_current_ma),
                voltage_mv: Some(limits.voltage_mv),
            },
        ),
        State::NotAttached => Some(ReflowSupply { current: CurrentBudget::AssumedDc, voltage_mv: None }),
        State::Error => None,
    }
}

/// How many heating ticks pass between two redraws of the progress screen.
pub const REFRESH_PERIOD: u8 = 5;

/// The stage of a reflow run.
#[derive(Clone, Copy, PartialEq, Eq, Structural, Debug)]
pub enum ReflowStage {
    /// The plate follows the profile; the screen is redrawn when the counter is 0.
    Heating { refresh_counter: u8 },
    /// The plate is off and cools down.
    Cooling,
    /// The run is over.
    Done,
}

/// What the firmware does on a tick of a reflow run.
#[derive(Clone, Copy, PartialEq, Eq, Structural, Debug)]
pub enum ReflowAction {
    /// Drive the plate towards the target of `status`, redrawing the progress screen
    /// where `redraw` is set, and wait for the next tick.
    Control { status: ReflowStatus, redraw: bool },
    /// Every phase has ended: switch the plate off and start cooling.
    StartCooling,
    /// Still too hot: wait for the next tick.
    KeepCooling,
    /// Cool enough: the run is complete.
    Finished,
}

/// The decisions of a reflow run, from its start to the end of cooling.
pub struct ReflowController {
    pub stage: ReflowStage,
}

/// The heating stage's display counter after `n` ticks from the start of a run.
pub open spec fn refresh_counter_after(n: nat) -> int
    decreases n,
{
    if n == 0 {
        0
    } else {
        (refresh_counter_after((n - 1) as nat) + 1) % (REFRESH_PERIOD as int)
    }
}

/// The progress screen is redrawn on every fifth heating tick, starting with the first.
pub proof fn law_redraw_every_fifth_tick(n: nat)
    ensures
        refresh_counter_after(n) == n % 5,
        (refresh_counter_after(n) == 0) <==> n % 5 == 0,
    decreases n,
{
    if n > 0 {
        law_redraw_every_fifth_tick((n - 1) as nat);
        vstd::arithmetic::div_mod::lemma_add_mod_noop((n - 1) as int, 1, 5);
        vstd::arithmetic::div_mod::lemma_mod_twice((n - 1) as int, 5);
        vstd::arithmetic::div_mod::lemma_small_mod(1, 5);
    }
}

impl ReflowController {
    /// A run starts heating, with the screen due for a redraw.
    pub fn new() -> (c: Self)
        ensures
            c.stage == (ReflowStage::Heating { refresh_counter: 0 }),
    {
        ReflowController { stage: ReflowStage::Heating { refresh_counter: 0 } }
    }

    /// One heating tick, `elapsed_secs` seconds after the run began (the profile is read at
    /// that time truncated to 16 bits, as its status takes a `u16`).
    pub fn heating_tick(&mut self, profile: &AlloyReflowProfile, elapsed_secs: u64) -> (action:
        ReflowAction)
        requires
            old(self).stage is Heating,
            total_duration_of(profile.phases@) <= u16::MAX,
        ensures
            ({
                let counter = old(self).stage->refresh_counter;
                match status_at(profile.phases@, (elapsed_secs as u16) as int) {
                    Some(status) => {
                        &&& action == (ReflowAction::Control { status, redraw: counter == 0 })
                        &&& final(self).stage == (ReflowStage::Heating {
                            refresh_counter: ((counter + 1) % (REFRESH_PERIOD as int)) as u8,
                        })
                    },
                    None => {
                        &&& action == ReflowAction::StartCooling
                        &&& final(self).stage == ReflowStage::Cooling
                    },
                }
            }),
    {
        let counter = match self.stage {
            ReflowStage::Heating { refresh_counter } => refresh_counter,
            _ => 0,
        };
        match profile.get_status(elapsed_secs as u16) {
            Some(status) => {
                let redraw = counter == 0;
                self.stage = ReflowStage::Heating {
                    refresh_counter: ((counter as u16 + 1) % (REFRESH_PERIOD as u16)) as u8,
                };
                ReflowAction::Control { status, redraw }
            },
            None => {
                self.stage = ReflowStage::Cooling;
                ReflowAction::StartCooling
            },
        }
    }

    /// One cooling tick, after the plate's temperature was read and shown: the run is
    /// finished once the temperature is below the end-of-cooling threshold.
    pub fn cooling_tick(&mut self, below_threshold: bool) -> (action: ReflowAction)
        requires
            old(self).stage == ReflowStage::Cooling,
        ensures
            below_threshold ==> action == ReflowAction::Finished && final(self).stage
                == ReflowStage::Done,
            !below_threshold ==> action == ReflowAction::KeepCooling && final(self).stage
                == ReflowStage::Cooling,
    {
        if below_threshold {
            self.stage = ReflowStage::Done;
            ReflowAction::Finished
        } else {
            ReflowAction::KeepCooling
        }
    }
}

/// How a reflow run ended.
#[derive(Clone, Copy, PartialEq, Eq, Structural, Debug)]
pub enum ReflowOutcome {
    Completed,
    Failed,
    Cancelled,
}

/// One beep of the buzzer: on for `on_ms`, then silent for `off_ms`.
#[derive(Clone, Copy, PartialEq, Eq, Structural, Debug)]
pub struct Beep {
    pub on_ms: u32,
    pub off_ms: u32,
}

/// The beep at power-up.
pub fn startup_beep() -> (b: Beep)
    ensures
        b == (Beep { on_ms: 500, off_ms: 0 }),
{
    Beep { on_ms: 500, off_ms: 0 }
}

/// The beeps that announce how a run ended: one long beep for a completed run, four short
/// ones for a failed run, one medium beep for a run cancelled by the user (whose plate is
/// then switched off).
pub fn outcome_beeps(outcome: ReflowOutcome) -> (beeps: Vec<Beep>)
    ensures
        outcome == ReflowOutcome::Completed ==> beeps@ == seq![Beep { on_ms: 500, off_ms: 0 }],
        outcome == ReflowOutcome::Cancelled ==> beeps@ == seq![Beep { on_ms: 300, off_ms: 0 }],
        outcome == ReflowOutcome::Failed ==> beeps@.len() == 4 && forall|i: int|
            0 <= i < 4 ==> #[trigger] beeps@[i] == (Beep { on_ms: 200, off_ms: 100 }),
{
    let mut beeps = Vec::new();
    match outcome {
        ReflowOutcome::Completed => beeps.push(Beep { on_ms: 500, off_ms: 0 }),
        ReflowOutcome::Cancelled => beeps.push(Beep { on_ms: 300, off_ms: 0 }),
        ReflowOutcome::Failed => {
            let mut i: usize = 0;
            while i < 4
                invariant
                    i <= 4,
                    beeps@.len() == i,
                    forall|k: int| 0 <= k < i ==> #[trigger] beeps@[k] == (Beep { on_ms: 200, off_ms: 100 }),
                decreases 4 - i,
            {
                beeps.push(Beep { on_ms: 200, off_ms: 100 });
                i = i + 1;
            }
        },
    }
    beeps
}

} // verus!
