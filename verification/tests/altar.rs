use std::time::Duration;

use e7::altar::{nests_bought, Action, Config, Event, Outcome, RunError, Runner, Sighting};

/// A simulated device at the altar: the screen shown, the purchases
/// confirmed, and whether the reward popup ever shows.
struct Device {
    state: &'static str,
    purchases: u32,
    missing_reward: bool,
}

impl Device {
    fn screencap(&mut self) -> Sighting {
        let shown = if self.state == "pending" {
            self.state = "popup";
            "modal"
        } else {
            self.state
        };
        Sighting {
            altar: shown == "altar",
            max: shown == "modal",
            popup: shown == "popup",
        }
    }

    fn tap(&mut self, x: u32, y: u32) {
        match (x, y) {
            (298, 805) => self.state = "modal",
            (1120, 884) => {
                self.purchases += 1;
                self.state = if self.missing_reward {
                    "modal"
                } else if self.purchases == 1 {
                    "popup"
                } else {
                    "pending"
                };
            }
            (958, 792) => self.state = "altar",
            _ => panic!("unexpected tap {x} {y}"),
        }
    }
}

fn run(missing_reward: bool, buys: u32) -> (u32, u32, Outcome) {
    let mut dev = Device {
        state: "altar",
        purchases: 0,
        missing_reward,
    };
    let mut r = Runner::new(Config {
        buys,
        dry_run: false,
    });
    let mut ev = Event::Proceed;
    for _ in 0..200 {
        match r.step(ev, false) {
            Action::Pause => ev = Event::Proceed,
            Action::Capture => ev = Event::Screen(dev.screencap()),
            Action::Tap { x, y } => {
                dev.tap(x, y);
                ev = Event::Proceed;
            }
            Action::Finish(o) => {
                let s = r.into_summary(Duration::from_secs(1), false);
                return (s.buys, dev.purchases, o);
            }
        }
    }
    panic!("the run did not end");
}

#[test]
fn continues_when_the_second_reward_popup_is_late() {
    assert_eq!(run(false, 2), (2, 2, Outcome::Done));
}

#[test]
fn stops_without_rebuying_when_the_reward_never_appears() {
    assert_eq!(run(true, 2), (0, 1, Outcome::NoReward));
}

#[test]
fn altar_missing_at_first_look_is_an_error() {
    let mut r = Runner::new(Config {
        buys: 1,
        dry_run: false,
    });
    assert_eq!(r.step(Event::Proceed, false), Action::Pause);
    assert_eq!(r.step(Event::Proceed, false), Action::Capture);
    let none = Sighting {
        altar: false,
        max: false,
        popup: false,
    };
    assert_eq!(r.step(Event::Screen(none), false), Action::Finish(Outcome::NotDetected));
}

#[test]
fn altar_dry_run_only_looks() {
    let mut r = Runner::new(Config {
        buys: 2,
        dry_run: true,
    });
    let seen = Sighting {
        altar: true,
        max: false,
        popup: false,
    };
    assert_eq!(r.step(Event::Proceed, false), Action::Capture);
    assert_eq!(r.step(Event::Screen(seen), false), Action::Pause);
    assert_eq!(r.step(Event::Proceed, false), Action::Capture);
    assert_eq!(r.step(Event::Screen(seen), false), Action::Pause);
    assert_eq!(r.step(Event::Proceed, false), Action::Finish(Outcome::Done));
    assert_eq!(r.done(), 2);
    assert_eq!(nests_bought(2), 100);
}

#[test]
fn altar_stop_flag_ends_before_a_purchase() {
    let mut r = Runner::new(Config {
        buys: 5,
        dry_run: false,
    });
    assert_eq!(r.step(Event::Proceed, true), Action::Finish(Outcome::Done));
}

#[test]
fn conclusions_of_an_altar_run() {
    let mut r = Runner::new(Config {
        buys: 1,
        dry_run: false,
    });
    r.step(Event::Proceed, false);
    r.step(Event::Proceed, false);
    let none = Sighting {
        altar: false,
        max: false,
        popup: false,
    };
    r.step(Event::Screen(none), false);
    let e = r.conclude(Duration::from_secs(1), false).err().unwrap();
    assert_eq!(e, RunError::AltarNotDetected);
    assert_eq!(e.message(), "penguin altar not detected: open it and retry");
}
