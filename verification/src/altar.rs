//! The penguin altar runner: buys penguin nests at the altar, one purchase
//! at a time, waiting for the reward popup of each purchase before the next
//! one, as a state machine driven by the caller.
use vstd::prelude::*;
use std::time::Duration;

verus! {

/// Penguin nests one purchase yields.
pub const NESTS_PER_BUY: u32 = 50;

/// Penguin nests that `buys` purchases yield.
pub fn nests_bought(buys: u32) -> (r: u64)
    ensures
        r == buys * NESTS_PER_BUY,
{
    assert(buys as u64 * 50 <= 0xffff_ffffu64 * 50);
    buys as u64 * NESTS_PER_BUY as u64
}

/// Screenshots to look for the reward popup after confirming a purchase
/// before giving up.
pub const REWARD_WAITS: u32 = 5;

/// Length of the pause before each screenshot, in milliseconds.
pub const SETTLE_MILLIS: u64 = 1500;

/// The altar's Buy button.
pub open spec fn buy_button() -> (u32, u32) {
    (298, 805)
}

/// The Confirm button of the purchase dialog (quantity at its maximum).
pub open spec fn confirm_button() -> (u32, u32) {
    (1120, 884)
}

/// The button that closes the reward popup.
pub open spec fn close_button() -> (u32, u32) {
    (958, 792)
}

/// What the runner is asked to do.
pub struct Config {
    /// Live run: purchases to make. Dry run: screenshots to take.
    pub buys: u32,
    /// Only take screenshots; never touch the screen.
    pub dry_run: bool,
}

/// The outcome of a run.
pub struct Summary {
    /// Purchases completed (live) or screenshots taken (dry run).
    pub buys: u32,
    /// Wall-clock time of the run.
    pub duration: Duration,
    /// The stop flag was raised.
    pub stopped: bool,
}

/// Which screens a screenshot shows.
#[derive(Clone, Copy, Debug, PartialEq, Eq, Structural)]
pub struct Sighting {
    /// The altar with its Buy button.
    pub altar: bool,
    /// The purchase dialog with the quantity at its maximum.
    pub max: bool,
    /// The reward popup of a completed purchase.
    pub popup: bool,
}

/// What the last action produced.
#[derive(Clone, Copy, Debug, PartialEq, Eq, Structural)]
pub enum Event {
    /// The action was carried out.
    Proceed,
    /// The screenshot that a `Capture` asked for.
    Screen(Sighting),
}

/// How a run ended.
#[derive(Clone, Copy, Debug, PartialEq, Eq, Structural)]
pub enum Outcome {
    /// The purchases are done, or the run was stopped.
    Done,
    /// The expected screen was not there before any purchase: an error.
    NotDetected,
    /// The expected screen went away after a purchase: the run stops.
    LeftAltar,
    /// A confirmed purchase showed no reward popup: the run stops without
    /// buying again.
    NoReward,
}

/// What the device should do next.
#[derive(Clone, Copy, Debug, PartialEq, Eq, Structural)]
pub enum Action {
    /// Sleep `SETTLE_MILLIS`.
    Pause,
    /// Take a screenshot and say which screens it shows.
    Capture,
    /// Tap this point.
    Tap { x: u32, y: u32 },
    /// Stop the run.
    Finish(Outcome),
}

/// The screen a look expects.
#[derive(Clone, Copy, Debug, PartialEq, Eq, Structural)]
pub enum Expect {
    /// The altar.
    Altar,
    /// The purchase dialog.
    Modal,
    /// The reward popup, after this many screenshots without it.
    Reward(u32),
}

/// Where the runner stands.
#[derive(Clone, Copy, Debug, PartialEq, Eq, Structural)]
pub enum Phase {
    /// Live run, top of the loop.
    Top,
    /// Pausing before a look.
    Settling(Expect),
    /// Waiting for a screenshot.
    Looking(Expect),
    /// A button was tapped; the screen is expected to change to this.
    Tapped(Expect),
    /// The reward popup was closed: the purchase is complete.
    Closing,
    /// Dry run, top of the loop.
    DryTop,
    /// Dry run, waiting for a screenshot.
    DryScanning,
    /// The run is over.
    Finished(Outcome),
}

/// The state of a runner, as plain values.
pub struct AltarState {
    pub buys: u32,
    pub dry_run: bool,
    pub done: u32,
    pub phase: Phase,
}

/// Top of the live loop: stop when asked or when the purchases are done,
/// else pause before looking for the altar.
pub open spec fn top(s: AltarState, stopped: bool) -> (AltarState, Action) {
    if stopped || s.done >= s.buys {
        (AltarState { phase: Phase::Finished(Outcome::Done), ..s }, Action::Finish(Outcome::Done))
    } else {
        (AltarState { phase: Phase::Settling(Expect::Altar), ..s }, Action::Pause)
    }
}

/// The expected screen is missing.
pub open spec fn missing(s: AltarState) -> (AltarState, Action) {
    let o = if s.done == 0 {
        Outcome::NotDetected
    } else {
        Outcome::LeftAltar
    };
    (AltarState { phase: Phase::Finished(o), ..s }, Action::Finish(o))
}

/// One step of the runner.
pub open spec fn altar_step(s: AltarState, ev: Event, stopped: bool) -> (AltarState, Action) {
    let at = |p: Phase| AltarState { phase: p, ..s };
    match s.phase {
        Phase::Top => top(s, stopped),
        Phase::Settling(e) => (at(Phase::Looking(e)), Action::Capture),
        Phase::Looking(e) => match ev {
            Event::Screen(seen) => match e {
                Expect::Altar => if seen.altar {
                    (at(Phase::Tapped(Expect::Modal)), Action::Tap { x: buy_button().0, y: buy_button().1 })
                } else {
                    missing(s)
                },
                Expect::Modal => if seen.max {
                    (
                        at(Phase::Tapped(Expect::Reward(0))),
                        Action::Tap { x: confirm_button().0, y: confirm_button().1 },
                    )
                } else {
                    missing(s)
                },
                Expect::Reward(k) => if seen.popup {
                    (at(Phase::Closing), Action::Tap { x: close_button().0, y: close_button().1 })
                } else if k + 1 < REWARD_WAITS {
                    (at(Phase::Settling(Expect::Reward((k + 1) as u32))), Action::Pause)
                } else {
                    (at(Phase::Finished(Outcome::NoReward)), Action::Finish(Outcome::NoReward))
                },
            },
            Event::Proceed => (s, Action::Capture),
        },
        Phase::Tapped(e) => (at(Phase::Settling(e)), Action::Pause),
        Phase::Closing => top(AltarState { done: (s.done + 1) as u32, ..s }, stopped),
        Phase::DryTop => if s.done < s.buys && !stopped {
            (at(Phase::DryScanning), Action::Capture)
        } else {
            (at(Phase::Finished(Outcome::Done)), Action::Finish(Outcome::Done))
        },
        Phase::DryScanning => match ev {
            Event::Screen(_) => (AltarState { phase: Phase::DryTop, done: (s.done + 1) as u32, ..s }, Action::Pause),
            Event::Proceed => (s, Action::Capture),
        },
        Phase::Finished(o) => (s, Action::Finish(o)),
    }
}

/// The expected screen is the reward popup.
pub open spec fn awaits_reward(e: Expect) -> bool {
    e is Reward
}

/// The runner is between confirming a purchase and seeing its reward.
pub open spec fn waiting_for_reward(p: Phase) -> bool {
    match p {
        Phase::Settling(e) => awaits_reward(e),
        Phase::Looking(e) => awaits_reward(e),
        Phase::Tapped(e) => awaits_reward(e),
        _ => false,
    }
}

/// The wait count of an expected screen, within bounds.
pub open spec fn expect_ok(e: Expect) -> bool {
    match e {
        Expect::Reward(k) => k < REWARD_WAITS,
        _ => true,
    }
}

/// What every reachable state satisfies.
pub open spec fn altar_wf(s: AltarState) -> bool {
    &&& s.dry_run ==> (s.phase is DryTop || s.phase is DryScanning || s.phase is Finished)
    &&& !s.dry_run ==> !(s.phase is DryTop || s.phase is DryScanning)
    &&& s.done <= s.buys
    &&& !(s.phase is Top || s.phase is Finished || s.phase is DryTop) ==> s.done < s.buys
    &&& match s.phase {
        Phase::Settling(e) => expect_ok(e),
        Phase::Looking(e) => expect_ok(e),
        Phase::Tapped(e) => expect_ok(e),
        _ => true,
    }
}

/// The altar runner.
pub struct Runner {
    cfg: Config,
    done: u32,
    phase: Phase,
}

impl View for Runner {
    type V = AltarState;

    closed spec fn view(&self) -> AltarState {
        AltarState { buys: self.cfg.buys, dry_run: self.cfg.dry_run, done: self.done, phase: self.phase }
    }
}

impl Runner {
    /// The runner holds a reachable state.
    pub open spec fn wf(&self) -> bool {
        altar_wf(self@)
    }

    /// A runner at the start of a run.
    pub fn new(cfg: Config) -> (r: Runner)
        ensures
            r.wf(),
            r@ == (AltarState {
                buys: cfg.buys,
                dry_run: cfg.dry_run,
                done: 0,
                phase: if cfg.dry_run { Phase::DryTop } else { Phase::Top },
            }),
    {
        let phase = if cfg.dry_run {
            Phase::DryTop
        } else {
            Phase::Top
        };
        Runner { cfg, done: 0, phase }
    }

    /// Purchases completed (live) or screenshots taken (dry run) so far.
    pub fn done(&self) -> (r: u32)
        ensures
            r == self@.done,
    {
        self.done
    }

    /// The configured number of purchases (or screenshots).
    pub fn buys(&self) -> (r: u32)
        ensures
            r == self@.buys,
    {
        self.cfg.buys
    }

    fn top(&mut self, stopped: bool) -> (a: Action)
        ensures
            final(self)@ == top(old(self)@, stopped).0,
            a == top(old(self)@, stopped).1,
    {
        if stopped || self.done >= self.cfg.buys {
            self.phase = Phase::Finished(Outcome::Done);
            Action::Finish(Outcome::Done)
        } else {
            self.phase = Phase::Settling(Expect::Altar);
            Action::Pause
        }
    }

    fn missing(&mut self) -> (a: Action)
        ensures
            final(self)@ == missing(old(self)@).0,
            a == missing(old(self)@).1,
    {
        let o = if self.done == 0 {
            Outcome::NotDetected
        } else {
            Outcome::LeftAltar
        };
        self.phase = Phase::Finished(o);
        Action::Finish(o)
    }

    /// One step of the run: takes what the last action produced and whether
    /// the stop flag is raised, and gives the next action (see
    /// `altar_step`). A run starts with `Event::Proceed` and ends at the
    /// first `Finish`.
    pub fn step(&mut self, event: Event, stopped: bool) -> (a: Action)
        requires
            old(self).wf(),
        ensures
            final(self).wf(),
            final(self)@ == altar_step(old(self)@, event, stopped).0,
            a == altar_step(old(self)@, event, stopped).1,
    {
        proof {
            lemma_step_keeps_wf(self@, event, stopped);
        }
        let phase = self.phase;
        match phase {
            Phase::Top => self.top(stopped),
            Phase::Settling(e) => {
                self.phase = Phase::Looking(e);
                Action::Capture
            },
            Phase::Looking(e) => match event {
                Event::Screen(seen) => match e {
                    Expect::Altar => {
                        if seen.altar {
                            self.phase = Phase::Tapped(Expect::Modal);
                            Action::Tap { x: 298, y: 805 }
                        } else {
                            self.missing()
                        }
                    },
                    Expect::Modal => {
                        if seen.max {
                            self.phase = Phase::Tapped(Expect::Reward(0));
                            Action::Tap { x: 1120, y: 884 }
                        } else {
                            self.missing()
                        }
                    },
                    Expect::Reward(k) => {
                        if seen.popup {
                            self.phase = Phase::Closing;
                            Action::Tap { x: 958, y: 792 }
                        } else if k + 1 < REWARD_WAITS {
                            self.phase = Phase::Settling(Expect::Reward(k + 1));
                            Action::Pause
                        } else {
                            self.phase = Phase::Finished(Outcome::NoReward);
                            Action::Finish(Outcome::NoReward)
                        }
                    },
                },
                Event::Proceed => Action::Capture,
            },
            Phase::Tapped(e) => {
                self.phase = Phase::Settling(e);
                Action::Pause
            },
            Phase::Closing => {
                self.done = self.done + 1;
                self.top(stopped)
            },
            Phase::DryTop => {
                if self.done < self.cfg.buys && !stopped {
                    self.phase = Phase::DryScanning;
                    Action::Capture
                } else {
                    self.phase = Phase::Finished(Outcome::Done);
                    Action::Finish(Outcome::Done)
                }
            },
            Phase::DryScanning => match event {
                Event::Screen(_) => {
                    self.done = self.done + 1;
                    self.phase = Phase::DryTop;
                    Action::Pause
                },
                Event::Proceed => Action::Capture,
            },
            Phase::Finished(o) => Action::Finish(o),
        }
    }

    /// The summary of the run so far.
    pub fn into_summary(self, duration: Duration, stopped: bool) -> (r: Summary)
        ensures
            r.buys == self@.done,
            r.duration == duration,
            r.stopped == stopped,
    {
        Summary { buys: self.done, duration, stopped }
    }
}

/// Why an altar run failed.
#[derive(Clone, Copy, Debug, PartialEq, Eq, Structural)]
pub enum RunError {
    /// The altar, or its purchase dialog, was not on screen before any
    /// purchase.
    AltarNotDetected,
}

impl RunError {
    /// What the error says.
    pub fn message(&self) -> (r: String)
        ensures
            r@ == "penguin altar not detected: open it and retry"@,
    {
        "penguin altar not detected: open it and retry".to_owned()
    }
}

/// How a finished altar run ends.
pub struct Ending {
    /// The summary of the run.
    pub summary: Summary,
    /// The stop flag is to be raised: the altar disappeared, or a purchase
    /// showed no reward.
    pub raise_stop: bool,
}

/// The outcome a finished phase holds.
pub open spec fn outcome_of(p: Phase) -> Outcome {
    match p {
        Phase::Finished(o) => o,
        _ => Outcome::Done,
    }
}

impl Runner {
    /// The end of a finished run, given the time it took and whether the
    /// stop flag was raised: an error when the altar was not detected;
    /// otherwise the summary and whether to raise the stop flag (when the
    /// altar disappeared or no reward came, which also counts as stopped).
    pub fn conclude(self, duration: Duration, stopped: bool) -> (r: Result<Ending, RunError>)
        requires
            self@.phase is Finished,
        ensures
            (outcome_of(self@.phase) == Outcome::NotDetected) <==> (r is Err),
            r matches Err(e) ==> e == RunError::AltarNotDetected,
            r matches Ok(end) ==> ({
                let halt = outcome_of(self@.phase) == Outcome::LeftAltar || outcome_of(self@.phase)
                    == Outcome::NoReward;
                &&& end.raise_stop == halt
                &&& end.summary.buys == self@.done
                &&& end.summary.duration == duration
                &&& end.summary.stopped == (stopped || halt)
            }),
    {
        let o = match self.phase {
            Phase::Finished(o) => o,
            _ => Outcome::Done,
        };
        match o {
            Outcome::NotDetected => Err(RunError::AltarNotDetected),
            _ => {
                let halt = match o {
                    Outcome::LeftAltar => true,
                    Outcome::NoReward => true,
                    _ => false,
                };
                Ok(Ending { summary: self.into_summary(duration, stopped || halt), raise_stop: halt })
            },
        }
    }
}

/// Every step keeps a reachable state reachable.
pub proof fn lemma_step_keeps_wf(s: AltarState, ev: Event, stopped: bool)
    requires
        altar_wf(s),
    ensures
        altar_wf(altar_step(s, ev, stopped).0),
{
}

/// Between confirming a purchase and seeing its reward, the runner neither
/// buys nor confirms again: it only pauses, looks, closes the reward popup,
/// or stops.
pub proof fn lemma_no_rebuy_while_waiting(s: AltarState, ev: Event, stopped: bool)
    requires
        waiting_for_reward(s.phase),
    ensures
        altar_step(s, ev, stopped).1 != (Action::Tap { x: buy_button().0, y: buy_button().1 }),
        altar_step(s, ev, stopped).1 != (Action::Tap { x: confirm_button().0, y: confirm_button().1 }),
        waiting_for_reward(altar_step(s, ev, stopped).0.phase) || altar_step(s, ev, stopped).0.phase
            is Closing || altar_step(s, ev, stopped).0.phase is Finished,
{
}

/// A purchase is counted only once its reward popup was seen and closed;
/// the count never passes the configured number of purchases.
pub proof fn lemma_counted_after_reward(s: AltarState, ev: Event, stopped: bool)
    requires
        altar_wf(s),
        !s.dry_run,
    ensures
        ({
            let t = altar_step(s, ev, stopped).0;
            &&& t.done <= t.buys
            &&& t.done == s.done || (s.phase is Closing && t.done == s.done + 1)
        }),
{
}

/// A dry run never touches the screen.
pub proof fn lemma_dry_run_never_taps(s: AltarState, ev: Event, stopped: bool)
    requires
        altar_wf(s),
        s.dry_run,
    ensures
        !(altar_step(s, ev, stopped).1 is Tap),
{
}

/// When the reward never shows, the run ends after `REWARD_WAITS`
/// screenshots without it.
pub proof fn lemma_reward_wait_bounded(s: AltarState, stopped: bool)
    requires
        altar_wf(s),
        s.phase == Phase::Looking(Expect::Reward((REWARD_WAITS - 1) as u32)),
    ensures
        altar_step(s, Event::Screen(Sighting { altar: false, max: true, popup: false }), stopped).1
            == Action::Finish(Outcome::NoReward),
{
}

} // verus!
