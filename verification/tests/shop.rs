use std::time::Duration;

use e7::item::Item;
use e7::matcher::Hit;
use e7::shop::{jitter, Action, Config, Event, Geometry, Outcome, Pause, RunError, Runner, Screen};

#[test]
fn buy_point_matches_python_offsets() {
    let hit = Hit {
        item: Item::Cov,
        x: 831,
        y: 902,
    };
    assert_eq!(Geometry::buy_point(&hit), (831 + 905, 902 + 108));
}

#[test]
fn fixed_points_match_python_fractions() {
    assert_eq!(Geometry::buy_confirm().px(), (1089, 759));
    assert_eq!(Geometry::refresh().px(), (326, 986));
    assert_eq!(Geometry::refresh_confirm().px(), (1118, 692));
    assert_eq!(Geometry::swipe().0.px(), (1200, 807));
    assert_eq!(Geometry::swipe().1.px(), (1200, 391));
}

#[test]
fn jitter_stays_within_bounds() {
    for _ in 0..1000 {
        let (x, y) = jitter((500, 500));
        assert!((425..=575).contains(&x) && (475..=525).contains(&y));
    }
}

#[test]
fn jitter_moves_taps() {
    let xs: std::collections::HashSet<u32> = (0..200).map(|_| jitter((500, 500)).0).collect();
    let ys: std::collections::HashSet<u32> = (0..200).map(|_| jitter((500, 500)).1).collect();
    assert!(xs.len() > 1 && ys.len() > 1);
}

#[test]
fn jitter_never_goes_below_zero() {
    for _ in 0..200 {
        let (x, y) = jitter((3, 0));
        assert!(x <= 78 && y <= 25);
    }
}

fn config(refreshes: u32, items: Vec<Item>, dry_run: bool) -> Config {
    Config {
        refreshes,
        items,
        dry_run,
        tap_sleep: Duration::from_millis(300),
        jitter: false,
    }
}

fn screen(visible: bool, hits: Vec<Hit>) -> Event {
    Event::Screen(Screen { visible, hits })
}

#[test]
fn live_run_buys_then_swipes_then_refreshes() {
    let mut r = Runner::new(config(1, vec![Item::Cov, Item::Mys], false));
    let go = Event::Proceed;
    assert_eq!(r.step(Event::Proceed, false), Action::Pause(Pause::Settle));
    assert_eq!(r.step(Event::Proceed, false), Action::Capture(vec![Item::Cov, Item::Mys]));
    let cov = Hit {
        item: Item::Cov,
        x: 10,
        y: 20,
    };
    assert_eq!(r.step(screen(true, vec![cov]), false), Action::Tap { x: 915, y: 128 });
    assert_eq!(r.step(go, false), Action::Tap { x: 1089, y: 759 });
    assert_eq!(r.step(Event::Proceed, false), Action::Pause(Pause::AfterBuy));
    assert_eq!(
        r.step(Event::Proceed, false),
        Action::Record {
            refresh: 0,
            item: Item::Cov
        }
    );
    assert_eq!(
        r.step(Event::Proceed, false),
        Action::Swipe {
            x1: 1200,
            y1: 807,
            x2: 1200,
            y2: 391
        }
    );
    assert_eq!(r.step(Event::Proceed, false), Action::Pause(Pause::AfterSwipe));
    assert_eq!(r.step(Event::Proceed, false), Action::Capture(vec![Item::Mys]));
    assert_eq!(r.step(screen(true, vec![]), false), Action::Tap { x: 326, y: 986 });
    assert_eq!(r.step(Event::Proceed, false), Action::Tap { x: 1118, y: 692 });
    assert_eq!(r.step(Event::Proceed, false), Action::Pause(Pause::Settle));
    assert_eq!(r.done(), 1);
    assert_eq!(r.step(Event::Proceed, false), Action::Capture(vec![Item::Cov, Item::Mys]));
    assert!(matches!(r.step(screen(true, vec![]), false), Action::Swipe { .. }));
    assert_eq!(r.step(Event::Proceed, false), Action::Pause(Pause::AfterSwipe));
    assert_eq!(r.step(Event::Proceed, false), Action::Capture(vec![Item::Cov, Item::Mys]));
    assert_eq!(r.step(screen(true, vec![]), false), Action::Finish(Outcome::Done));
    assert_eq!(r.step(Event::Proceed, false), Action::Finish(Outcome::Done));
    let s = r.into_summary(Duration::from_secs(5), false);
    assert_eq!(s.refreshes, 1);
    assert_eq!(s.counts, vec![(Item::Cov, 1), (Item::Mys, 0)]);
    assert_eq!(s.gold, 184_000);
    assert!(!s.stopped);
}

#[test]
fn shop_missing_at_first_look_is_an_error() {
    let mut r = Runner::new(config(3, vec![Item::Cov], false));
    r.step(Event::Proceed, false);
    r.step(Event::Proceed, false);
    assert_eq!(r.step(screen(false, vec![]), false), Action::Finish(Outcome::NotDetected));
}

#[test]
fn shop_gone_after_a_refresh_stops_quietly() {
    let mut r = Runner::new(config(3, vec![Item::Cov], false));
    r.step(Event::Proceed, false);
    r.step(Event::Proceed, false);
    r.step(screen(true, vec![]), false);
    r.step(Event::Proceed, false);
    r.step(Event::Proceed, false);
    r.step(screen(true, vec![]), false);
    r.step(Event::Proceed, false);
    assert_eq!(r.step(Event::Proceed, false), Action::Pause(Pause::Settle));
    assert_eq!(r.done(), 1);
    r.step(Event::Proceed, false);
    assert_eq!(r.step(screen(false, vec![]), false), Action::Finish(Outcome::LeftShop));
}

#[test]
fn stop_flag_prevents_the_next_purchase() {
    let mut r = Runner::new(config(3, vec![Item::Cov, Item::Mys], false));
    r.step(Event::Proceed, false);
    r.step(Event::Proceed, false);
    let hits = vec![
        Hit {
            item: Item::Cov,
            x: 1,
            y: 2,
        },
        Hit {
            item: Item::Mys,
            x: 3,
            y: 4,
        },
    ];
    assert_eq!(r.step(screen(true, hits), false), Action::Tap { x: 906, y: 110 });
    assert_eq!(r.step(Event::Proceed, true), Action::Tap { x: 1089, y: 759 });
    assert_eq!(r.step(Event::Proceed, true), Action::Pause(Pause::AfterBuy));
    assert!(matches!(r.step(Event::Proceed, true), Action::Record { .. }));
    assert_eq!(r.step(Event::Proceed, true), Action::Finish(Outcome::Done));
    assert_eq!(r.counts(), &vec![(Item::Cov, 1), (Item::Mys, 0)]);
}

#[test]
fn dry_run_counts_without_touching() {
    let mut r = Runner::new(config(2, vec![Item::Cov, Item::Mys], true));
    assert_eq!(r.step(Event::Proceed, false), Action::Capture(vec![Item::Cov, Item::Mys]));
    let mys = Hit {
        item: Item::Mys,
        x: 25,
        y: 793,
    };
    assert_eq!(r.step(screen(false, vec![mys]), false), Action::Pause(Pause::Settle));
    assert_eq!(r.done(), 1);
    assert_eq!(r.step(Event::Proceed, false), Action::Capture(vec![Item::Cov, Item::Mys]));
    assert_eq!(r.step(screen(true, vec![mys, mys]), false), Action::Pause(Pause::Settle));
    assert_eq!(r.step(Event::Proceed, false), Action::Finish(Outcome::Done));
    let s = r.into_summary(Duration::from_secs(1), true);
    assert_eq!(s.refreshes, 2);
    assert_eq!(s.counts, vec![(Item::Cov, 0), (Item::Mys, 3)]);
    assert_eq!(s.gold, 840_000);
    assert!(s.stopped);
}

#[test]
fn pauses_and_aim() {
    assert_eq!(Pause::Settle.millis(), 1500);
    assert_eq!(Pause::AfterSwipe.millis(), 1000);
    assert_eq!(Pause::AfterBuy.millis(), 1000);
    let r = Runner::new(config(1, vec![], false));
    assert_eq!(r.aim((100, 200)), (100, 200));
    assert_eq!(r.tap_sleep(), Duration::from_millis(300));
    assert_eq!(r.refreshes(), 1);
}

#[test]
fn conclusions_of_a_shop_run() {
    let mut r = Runner::new(config(3, vec![Item::Cov], false));
    r.step(Event::Proceed, false);
    r.step(Event::Proceed, false);
    r.step(screen(false, vec![]), false);
    let e = r.conclude(Duration::from_secs(1), false).err().unwrap();
    assert_eq!(e, RunError::ShopNotDetected);
    assert_eq!(e.message(), "Secret Shop not detected: open it in landscape and retry");

    let mut r = Runner::new(config(0, vec![Item::Cov, Item::Fb], false));
    r.step(Event::Proceed, false);
    r.step(Event::Proceed, false);
    let fb = Hit {
        item: Item::Fb,
        x: 28,
        y: 468,
    };
    r.step(screen(true, vec![fb]), false);
    r.step(Event::Proceed, false);
    r.step(Event::Proceed, false);
    assert_eq!(
        r.step(Event::Proceed, false),
        Action::Record {
            refresh: 0,
            item: Item::Fb
        }
    );
    assert!(matches!(r.step(Event::Proceed, false), Action::Swipe { .. }));
    r.step(Event::Proceed, false);
    assert_eq!(r.step(Event::Proceed, false), Action::Capture(vec![Item::Cov]));
    assert_eq!(r.step(screen(true, vec![]), false), Action::Finish(Outcome::Done));
    let end = r.conclude(Duration::from_secs(2), false).ok().unwrap();
    assert!(!end.raise_stop);
    assert!(!end.summary.stopped);
    assert_eq!(end.run_end, (0, 18_000));
    assert_eq!(end.summary.counts, vec![(Item::Cov, 0), (Item::Fb, 1)]);
}
