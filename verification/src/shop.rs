//! The Secret Shop runner: tap targets, jitter, and the refresh-and-buy loop
//! as a state machine. Each step takes what the last action produced and
//! says what to do next; the caller performs the actions on the device.
use vstd::prelude::*;
use std::time::Duration;
use rand::Rng;

use crate::item::{Item, item_gold};
use crate::matcher::{Hit, SCREEN_H, SCREEN_W};

verus! {

/// A point of the reference screen given as fractions of its width and
/// height, in units of 1/10000.
#[derive(Clone, Copy, Debug, PartialEq, Eq, Structural)]
pub struct Frac(pub u32, pub u32);

/// `f`/10000 of `full` pixels, rounded down.
pub open spec fn frac_px(f: u32, full: u32) -> u32 {
    (f * full / 10000) as u32
}

impl Frac {
    /// The pixel of the reference screen at this point.
    pub fn px(self) -> (r: (u32, u32))
        ensures
            r == (frac_px(self.0, SCREEN_W), frac_px(self.1, SCREEN_H)),
    {
        let x = (self.0 as u64) * (SCREEN_W as u64) / 10000;
        let y = (self.1 as u64) * (SCREEN_H as u64) / 10000;
        assert(x <= self.0) by (nonlinear_arith)
            requires
                x == (self.0 as u64) * 1920 / 10000,
        ;
        assert(y <= self.1) by (nonlinear_arith)
            requires
                y == (self.1 as u64) * 1080 / 10000,
        ;
        (x as u32, y as u32)
    }
}

/// Tap targets of the shop screen.
pub struct Geometry;

/// From the top-left of an item icon to its Buy button.
pub open spec fn buy_offset() -> Frac {
    Frac(4718, 1000)
}

/// The Buy button of the purchase dialog.
pub open spec fn buy_confirm() -> Frac {
    Frac(5677, 7037)
}

/// The Refresh button of the shop.
pub open spec fn refresh_button() -> Frac {
    Frac(1698, 9138)
}

/// The Confirm button of the refresh dialog.
pub open spec fn refresh_confirm() -> Frac {
    Frac(5828, 6411)
}

/// A swipe up the shop list, from the first point to the second.
pub open spec fn swipe_path() -> (Frac, Frac) {
    (Frac(6250, 7481), Frac(6250, 3629))
}

impl Geometry {
    /// From the top-left of an item icon to its Buy button.
    pub fn buy_offset() -> (r: Frac)
        ensures
            r == buy_offset(),
    {
        Frac(4718, 1000)
    }

    /// The Buy button of the purchase dialog.
    pub fn buy_confirm() -> (r: Frac)
        ensures
            r == buy_confirm(),
    {
        Frac(5677, 7037)
    }

    /// The Refresh button of the shop.
    pub fn refresh() -> (r: Frac)
        ensures
            r == refresh_button(),
    {
        Frac(1698, 9138)
    }

    /// The Confirm button of the refresh dialog.
    pub fn refresh_confirm() -> (r: Frac)
        ensures
            r == refresh_confirm(),
    {
        Frac(5828, 6411)
    }

    /// A swipe up the shop list, from the first point to the second.
    pub fn swipe() -> (r: (Frac, Frac))
        ensures
            r == swipe_path(),
    {
        (Frac(6250, 7481), Frac(6250, 3629))
    }

    /// Where to tap to buy the item at `hit`.
    pub fn buy_point(hit: &Hit) -> (r: (u32, u32))
        requires
            tappable(*hit),
        ensures
            r == buy_point(*hit),
    {
        let (dx, dy) = Self::buy_offset().px();
        (hit.x + dx, hit.y + dy)
    }
}

/// The Buy button of the item at `hit`.
pub open spec fn buy_point(hit: Hit) -> (u32, u32) {
    (
        (hit.x + frac_px(buy_offset().0, SCREEN_W)) as u32,
        (hit.y + frac_px(buy_offset().1, SCREEN_H)) as u32,
    )
}

/// The Buy button of `hit` lies within the range of pixel coordinates.
pub open spec fn tappable(hit: Hit) -> bool {
    &&& hit.x + frac_px(buy_offset().0, SCREEN_W) <= u32::MAX
    &&& hit.y + frac_px(buy_offset().1, SCREEN_H) <= u32::MAX
}

/// Largest horizontal jitter of a tap, in pixels.
pub const JITTER_X: i32 = 75;

/// Largest vertical jitter of a tap, in pixels.
pub const JITTER_Y: i32 = 25;

/// A uniformly random offset in `-bound..=bound`, from the thread's random
/// generator (`rand::rng().random_range`). Only the range of the result is
/// stated.
#[verifier::external_body]
fn random_offset(bound: i32) -> (r: i32)
    requires
        0 <= bound,
    ensures
        -bound <= r <= bound,
{
    rand::rng().random_range(-bound..=bound)
}

/// Coordinate `c` moved by `d`, as `(c as i32 + d).max(0) as u32` computes it.
pub open spec fn nudge(c: u32, d: i32) -> u32 {
    if (c as i32) + d < 0 {
        0
    } else {
        ((c as i32) + d) as u32
    }
}

/// Moving `c` by any offset up to `bound` stays within the range of `i32`.
pub open spec fn nudge_ok(c: u32, bound: i32) -> bool {
    &&& i32::MIN <= (c as i32) - bound
    &&& (c as i32) + bound <= i32::MAX
}

fn nudge_by(c: u32, d: i32, bound: i32) -> (r: u32)
    requires
        nudge_ok(c, bound),
        -bound <= d <= bound,
    ensures
        r == nudge(c, d),
{
    let v = (c as i32) + d;
    if v < 0 {
        0
    } else {
        v as u32
    }
}

/// A tap point moved by a random offset of up to `JITTER_X` horizontally and
/// `JITTER_Y` vertically, not below 0.
pub fn jitter(point: (u32, u32)) -> (r: (u32, u32))
    requires
        nudge_ok(point.0, JITTER_X),
        nudge_ok(point.1, JITTER_Y),
    ensures
        exists|dx: i32, dy: i32|
            -JITTER_X <= dx <= JITTER_X && -JITTER_Y <= dy <= JITTER_Y && r == (
                nudge(point.0, dx),
                nudge(point.1, dy),
            ),
{
    let dx = random_offset(JITTER_X);
    let dy = random_offset(JITTER_Y);
    let r = (nudge_by(point.0, dx, JITTER_X), nudge_by(point.1, dy, JITTER_Y));
    assert(r == (nudge(point.0, dx), nudge(point.1, dy)));
    r
}


/// A pause between two steps on the device.
#[derive(Clone, Copy, Debug, PartialEq, Eq, Structural)]
pub enum Pause {
    /// Lets the shop screen settle before a screenshot.
    Settle,
    /// Lets the list come to rest after a swipe.
    AfterSwipe,
    /// Lets the purchase go through.
    AfterBuy,
}

impl Pause {
    /// Length of the pause in milliseconds.
    pub fn millis(self) -> (r: u64)
        ensures
            r == pause_millis(self),
    {
        match self {
            Pause::Settle => 1500,
            Pause::AfterSwipe => 1000,
            Pause::AfterBuy => 1000,
        }
    }
}

/// Length of a pause in milliseconds.
pub open spec fn pause_millis(p: Pause) -> u64 {
    match p {
        Pause::Settle => 1500,
        Pause::AfterSwipe => 1000,
        Pause::AfterBuy => 1000,
    }
}

/// How a run ended.
#[derive(Clone, Copy, Debug, PartialEq, Eq, Structural)]
pub enum Outcome {
    /// The run is complete, or was stopped.
    Done,
    /// The shop disappeared after at least one refresh: the run stops (and
    /// raises the stop flag) without error.
    LeftShop,
    /// The shop was not on screen at the first look: an error.
    NotDetected,
}

/// Which of the two screenshots of a shop page is being handled: before or
/// after the swipe down the list.
#[derive(Clone, Copy, Debug, PartialEq, Eq, Structural)]
pub enum Pass {
    First,
    Second,
}

/// Where the runner stands.
#[derive(Clone, Copy, Debug, PartialEq, Eq, Structural)]
pub enum Phase {
    /// Live run, top of the loop: stop, or let the screen settle.
    Top,
    /// The screen has settled: take the first screenshot of the page.
    Settled,
    /// Waiting for a screenshot of the page.
    Scanning(Pass),
    /// The Buy button of a hit was tapped: confirm.
    Confirming(Pass),
    /// The purchase was confirmed: let it go through.
    Confirmed(Pass),
    /// The purchase went through: record it.
    Paid(Pass),
    /// The purchase was recorded: go on with the next hit.
    Recorded(Pass),
    /// The list was swiped: let it come to rest.
    Swiped,
    /// The list is at rest: take the second screenshot of the page.
    SwipeSettled,
    /// The Refresh button was tapped: confirm.
    Refreshing,
    /// The refresh was confirmed: count it and start over.
    Refreshed,
    /// Dry run, top of the loop: take a screenshot or stop.
    DryTop,
    /// Dry run, waiting for a screenshot.
    DryScanning,
    /// The run is over.
    Finished(Outcome),
}

/// What the device should do next.
#[derive(Debug, PartialEq, Eq)]
pub enum Action {
    /// Sleep.
    Pause(Pause),
    /// Take a screenshot; say whether the shop is on it and where each of
    /// these items is, in this order (only those found).
    Capture(Vec<Item>),
    /// Tap this point (then sleep the configured tap pause).
    Tap { x: u32, y: u32 },
    /// Swipe between these points.
    Swipe { x1: u32, y1: u32, x2: u32, y2: u32 },
    /// Write a history row: `item` bought at refresh `refresh`.
    Record { refresh: u32, item: Item },
    /// Stop the run.
    Finish(Outcome),
}

/// An action, as plain values.
pub enum Act {
    Pause(Pause),
    Capture(Seq<Item>),
    Tap(u32, u32),
    Swipe(u32, u32, u32, u32),
    Record(u32, Item),
    Finish(Outcome),
}

impl View for Action {
    type V = Act;

    open spec fn view(&self) -> Act {
        match self {
            Action::Pause(p) => Act::Pause(*p),
            Action::Capture(items) => Act::Capture(items@),
            Action::Tap { x, y } => Act::Tap(*x, *y),
            Action::Swipe { x1, y1, x2, y2 } => Act::Swipe(*x1, *y1, *x2, *y2),
            Action::Record { refresh, item } => Act::Record(*refresh, *item),
            Action::Finish(o) => Act::Finish(*o),
        }
    }
}

/// What a screenshot showed.
pub struct Screen {
    /// The shop's Refresh button is on screen.
    pub visible: bool,
    /// Where the requested items are, in the requested order.
    pub hits: Vec<Hit>,
}

/// What the last action produced.
pub enum Event {
    /// The action was carried out.
    Proceed,
    /// The screenshot that a `Capture` asked for.
    Screen(Screen),
}

/// An event, as plain values.
pub enum Ev {
    Proceed,
    Screen(bool, Seq<Hit>),
}

impl View for Event {
    type V = Ev;

    open spec fn view(&self) -> Ev {
        match self {
            Event::Proceed => Ev::Proceed,
            Event::Screen(s) => Ev::Screen(s.visible, s.hits@),
        }
    }
}

/// Every hit of the event can be bought (its Buy button is a pixel).
pub open spec fn event_ok(ev: Ev) -> bool {
    match ev {
        Ev::Proceed => true,
        Ev::Screen(_, hits) => forall|k: int| 0 <= k < hits.len() ==> tappable(#[trigger] hits[k]),
    }
}

/// What the runner is asked to do.
pub struct Config {
    /// Live run: number of refreshes. Dry run: number of screenshots.
    pub refreshes: u32,
    /// Items to buy, in the order they are searched.
    pub items: Vec<Item>,
    /// Only take screenshots and count what is found; never touch the screen.
    pub dry_run: bool,
    /// Pause after each tap.
    pub tap_sleep: Duration,
    /// Move each tap by a small random offset.
    pub jitter: bool,
}

/// The outcome of a run.
pub struct Summary {
    /// Refreshes done (live) or screenshots taken (dry run).
    pub refreshes: u32,
    /// Purchases (live) or sightings (dry run) per configured item.
    pub counts: Vec<(Item, u32)>,
    /// Gold spent: the gold of each item times its count, summed.
    pub gold: u64,
    /// Wall-clock time of the run.
    pub duration: Duration,
    /// The stop flag was raised.
    pub stopped: bool,
}

/// The state of a runner, as plain values.
#[verifier::ext_equal]
pub struct ShopState {
    pub items: Seq<Item>,
    pub refreshes: u32,
    pub dry_run: bool,
    pub counts: Seq<(Item, u32)>,
    pub done: u32,
    pub phase: Phase,
    pub bought: Seq<Item>,
    pub queue: Seq<Hit>,
    pub next: int,
}

/// `k` is the first entry of `counts` for `item`.
pub open spec fn is_first_entry(counts: Seq<(Item, u32)>, item: Item, k: int) -> bool {
    &&& 0 <= k < counts.len()
    &&& counts[k].0 == item
    &&& forall|j: int| 0 <= j < k ==> counts[j].0 != item
}

/// `counts` with the first entry for `item` one higher (wrapping, as a
/// `u32`); unchanged when there is no such entry.
pub open spec fn bump(counts: Seq<(Item, u32)>, item: Item) -> Seq<(Item, u32)> {
    if exists|k: int| is_first_entry(counts, item, k) {
        let k = choose|k: int| is_first_entry(counts, item, k);
        counts.update(k, (item, vstd::wrapping::u32_specs::wrapping_add(counts[k].1, 1)))
    } else {
        counts
    }
}

/// `counts` bumped once for the item of each hit, in order.
pub open spec fn bump_all(counts: Seq<(Item, u32)>, hits: Seq<Hit>) -> Seq<(Item, u32)>
    decreases hits.len(),
{
    if hits.len() == 0 {
        counts
    } else {
        bump(bump_all(counts, hits.drop_last()), hits.last().item)
    }
}

/// The items of `items` that are not in `bought`, in order.
pub open spec fn unbought(items: Seq<Item>, bought: Seq<Item>) -> Seq<Item>
    decreases items.len(),
{
    if items.len() == 0 {
        seq![]
    } else if bought.contains(items.last()) {
        unbought(items.drop_last(), bought)
    } else {
        unbought(items.drop_last(), bought).push(items.last())
    }
}

/// Gold of the counted items: `gold * count` per entry, summed as `u64`
/// with wrap-around.
pub open spec fn gold_total(counts: Seq<(Item, u32)>) -> u64
    decreases counts.len(),
{
    if counts.len() == 0 {
        0
    } else {
        vstd::wrapping::u64_specs::wrapping_add(
            gold_total(counts.drop_last()),
            (item_gold(counts.last().0) * counts.last().1) as u64,
        )
    }
}

/// The state with a new phase.
pub open spec fn at(s: ShopState, phase: Phase) -> ShopState {
    ShopState { phase, ..s }
}

/// Ends the run.
pub open spec fn finish(s: ShopState, o: Outcome) -> (ShopState, Act) {
    (at(s, Phase::Finished(o)), Act::Finish(o))
}

/// Top of the live loop: stop when asked, else let the screen settle.
pub open spec fn top(s: ShopState, stopped: bool) -> (ShopState, Act) {
    if stopped {
        finish(s, Outcome::Done)
    } else {
        (at(s, Phase::Settled), Act::Pause(Pause::Settle))
    }
}

/// After the hits of a screenshot: the first pass swipes down the list
/// unless stopped; the second refreshes the shop unless stopped or the
/// refreshes are used up.
pub open spec fn end_of_pass(s: ShopState, pass: Pass, stopped: bool) -> (ShopState, Act) {
    match pass {
        Pass::First => if stopped {
            finish(s, Outcome::Done)
        } else {
            let (a, b) = swipe_path();
            (
                at(s, Phase::Swiped),
                Act::Swipe(
                    frac_px(a.0, SCREEN_W),
                    frac_px(a.1, SCREEN_H),
                    frac_px(b.0, SCREEN_W),
                    frac_px(b.1, SCREEN_H),
                ),
            )
        },
        Pass::Second => if stopped || s.done >= s.refreshes {
            finish(s, Outcome::Done)
        } else {
            (
                at(s, Phase::Refreshing),
                Act::Tap(frac_px(refresh_button().0, SCREEN_W), frac_px(refresh_button().1, SCREEN_H)),
            )
        },
    }
}

/// The next hit of the screenshot: tap its Buy button, unless stopped or
/// none is left.
pub open spec fn next_hit(s: ShopState, pass: Pass, stopped: bool) -> (ShopState, Act) {
    if s.next < s.queue.len() && !stopped {
        let (x, y) = buy_point(s.queue[s.next]);
        (at(s, Phase::Confirming(pass)), Act::Tap(x, y))
    } else {
        end_of_pass(s, pass, stopped)
    }
}

/// One step of the runner: from the state, what the last action produced
/// and whether the stop flag is raised, the next state and action.
pub open spec fn shop_step(s: ShopState, ev: Ev, stopped: bool) -> (ShopState, Act) {
    match s.phase {
        Phase::Top => top(s, stopped),
        Phase::Settled => (
            ShopState { phase: Phase::Scanning(Pass::First), bought: seq![], ..s },
            Act::Capture(s.items),
        ),
        Phase::Scanning(pass) => match ev {
            Ev::Screen(visible, hits) => if !visible {
                finish(s, if s.done == 0 { Outcome::NotDetected } else { Outcome::LeftShop })
            } else {
                next_hit(ShopState { queue: hits, next: 0, ..s }, pass, stopped)
            },
            Ev::Proceed => (s, Act::Capture(unbought(s.items, s.bought))),
        },
        Phase::Confirming(pass) => (
            at(s, Phase::Confirmed(pass)),
            Act::Tap(frac_px(buy_confirm().0, SCREEN_W), frac_px(buy_confirm().1, SCREEN_H)),
        ),
        Phase::Confirmed(pass) => (at(s, Phase::Paid(pass)), Act::Pause(Pause::AfterBuy)),
        Phase::Paid(pass) => {
            let item = s.queue[s.next].item;
            (
                ShopState {
                    phase: Phase::Recorded(pass),
                    bought: s.bought.push(item),
                    counts: bump(s.counts, item),
                    next: s.next + 1,
                    ..s
                },
                Act::Record(s.done, item),
            )
        },
        Phase::Recorded(pass) => next_hit(s, pass, stopped),
        Phase::Swiped => (at(s, Phase::SwipeSettled), Act::Pause(Pause::AfterSwipe)),
        Phase::SwipeSettled => (
            at(s, Phase::Scanning(Pass::Second)),
            Act::Capture(unbought(s.items, s.bought)),
        ),
        Phase::Refreshing => (
            at(s, Phase::Refreshed),
            Act::Tap(
                frac_px(refresh_confirm().0, SCREEN_W),
                frac_px(refresh_confirm().1, SCREEN_H),
            ),
        ),
        Phase::Refreshed => top(ShopState { done: (s.done + 1) as u32, ..s }, stopped),
        Phase::DryTop => if s.done < s.refreshes && !stopped {
            (at(s, Phase::DryScanning), Act::Capture(s.items))
        } else {
            finish(s, Outcome::Done)
        },
        Phase::DryScanning => match ev {
            Ev::Screen(_, hits) => (
                ShopState {
                    phase: Phase::DryTop,
                    done: (s.done + 1) as u32,
                    counts: bump_all(s.counts, hits),
                    ..s
                },
                Act::Pause(Pause::Settle),
            ),
            Ev::Proceed => (s, Act::Capture(s.items)),
        },
        Phase::Finished(o) => (s, Act::Finish(o)),
    }
}

/// The phases of a dry run.
pub open spec fn dry_phase(p: Phase) -> bool {
    p is DryTop || p is DryScanning || p is Finished
}

/// The phases in which a purchase is under way (a hit is being bought).
pub open spec fn buying(p: Phase) -> bool {
    p is Confirming || p is Confirmed || p is Paid
}

/// What every reachable state satisfies.
pub open spec fn shop_wf(s: ShopState) -> bool {
    &&& s.dry_run ==> dry_phase(s.phase)
    &&& !s.dry_run ==> !(s.phase is DryTop || s.phase is DryScanning)
    &&& 0 <= s.next <= s.queue.len()
    &&& buying(s.phase) ==> s.next < s.queue.len()
    &&& forall|k: int| 0 <= k < s.queue.len() ==> tappable(#[trigger] s.queue[k])
    &&& s.done <= s.refreshes
    &&& (s.phase is Refreshing || s.phase is Refreshed || s.phase is DryScanning) ==> s.done
        < s.refreshes
    &&& counts_follow_items(s.counts, s.items)
}

/// The counts hold one entry per configured item, in the configured order.
pub open spec fn counts_follow_items(counts: Seq<(Item, u32)>, items: Seq<Item>) -> bool {
    &&& counts.len() == items.len()
    &&& forall|k: int| 0 <= k < counts.len() ==> (#[trigger] counts[k]).0 == items[k]
}

/// Bumping a count keeps every entry's item.
pub proof fn lemma_bump_keeps_items(counts: Seq<(Item, u32)>, item: Item)
    ensures
        bump(counts, item).len() == counts.len(),
        forall|k: int| 0 <= k < counts.len() ==> (#[trigger] bump(counts, item)[k]).0 == counts[k].0,
{
}

/// Bumping counts for any hits keeps every entry's item.
pub proof fn lemma_bump_all_keeps_items(counts: Seq<(Item, u32)>, hits: Seq<Hit>)
    ensures
        bump_all(counts, hits).len() == counts.len(),
        forall|k: int| 0 <= k < counts.len() ==> (#[trigger] bump_all(counts, hits)[k]).0
            == counts[k].0,
    decreases hits.len(),
{
    if hits.len() > 0 {
        lemma_bump_all_keeps_items(counts, hits.drop_last());
        lemma_bump_keeps_items(bump_all(counts, hits.drop_last()), hits.last().item);
    }
}


/// A copy of `v`.
fn copy_items(v: &Vec<Item>) -> (r: Vec<Item>)
    ensures
        r@ == v@,
{
    let mut r: Vec<Item> = Vec::new();
    let mut k: usize = 0;
    while k < v.len()
        invariant
            0 <= k <= v.len(),
            r@ == v@.take(k as int),
        decreases v.len() - k,
    {
        r.push(v[k]);
        assert(v@.take(k + 1) =~= v@.take(k as int).push(v@[k as int]));
        k = k + 1;
    }
    assert(v@.take(k as int) =~= v@);
    r
}

/// Whether `item` is in `v`.
fn contains_item(v: &Vec<Item>, item: Item) -> (r: bool)
    ensures
        r == v@.contains(item),
{
    let mut k: usize = 0;
    while k < v.len()
        invariant
            0 <= k <= v.len(),
            forall|j: int| 0 <= j < k ==> v@[j] != item,
        decreases v.len() - k,
    {
        if v[k] == item {
            assert(v@[k as int] == item);
            return true;
        }
        k = k + 1;
    }
    false
}

/// The items of `items` that are not in `bought`, in order.
fn unbought_items(items: &Vec<Item>, bought: &Vec<Item>) -> (r: Vec<Item>)
    ensures
        r@ == unbought(items@, bought@),
{
    let mut r: Vec<Item> = Vec::new();
    let mut k: usize = 0;
    while k < items.len()
        invariant
            0 <= k <= items.len(),
            r@ == unbought(items@.take(k as int), bought@),
        decreases items.len() - k,
    {
        assert(items@.take(k + 1).drop_last() =~= items@.take(k as int));
        assert(items@.take(k + 1).last() == items@[k as int]);
        if !contains_item(bought, items[k]) {
            r.push(items[k]);
        }
        k = k + 1;
    }
    assert(items@.take(k as int) =~= items@);
    r
}

/// Adds one to the first entry of `counts` for `item`.
fn bump_count(counts: &mut Vec<(Item, u32)>, item: Item)
    ensures
        final(counts)@ == bump(old(counts)@, item),
{
    let mut k: usize = 0;
    while k < counts.len()
        invariant
            0 <= k <= counts.len(),
            counts@ == old(counts)@,
            forall|j: int| 0 <= j < k ==> counts@[j].0 != item,
        decreases counts.len() - k,
    {
        if counts[k].0 == item {
            assert(is_first_entry(counts@, item, k as int));
            proof {
                let c = choose|c: int| is_first_entry(counts@, item, c);
                if c < k {
                    assert(counts@[c].0 != item);
                }
                if c > k {
                    assert(counts@[k as int].0 == item);
                }
            }
            let n = counts[k].1.wrapping_add(1);
            counts.set(k, (item, n));
            return;
        }
        k = k + 1;
    }
    assert(!exists|c: int| is_first_entry(counts@, item, c));
}

/// Adds one to the first entry of `counts` for the item of each hit.
fn bump_counts(counts: &mut Vec<(Item, u32)>, hits: &Vec<Hit>)
    ensures
        final(counts)@ == bump_all(old(counts)@, hits@),
{
    let ghost start = counts@;
    let mut k: usize = 0;
    while k < hits.len()
        invariant
            0 <= k <= hits.len(),
            start == old(counts)@,
            counts@ == bump_all(start, hits@.take(k as int)),
        decreases hits.len() - k,
    {
        assert(hits@.take(k + 1).drop_last() =~= hits@.take(k as int));
        bump_count(counts, hits[k].item);
        k = k + 1;
    }
    assert(hits@.take(k as int) =~= hits@);
}

/// The state a run starts from.
pub open spec fn initial(items: Seq<Item>, refreshes: u32, dry_run: bool) -> ShopState {
    ShopState {
        items,
        refreshes,
        dry_run,
        counts: items.map_values(|i: Item| (i, 0u32)),
        done: 0,
        phase: if dry_run { Phase::DryTop } else { Phase::Top },
        bought: seq![],
        queue: seq![],
        next: 0,
    }
}

/// The Secret Shop runner. In a live run it inspects the page, buys every
/// configured item it sees, swipes down the list, inspects and buys again,
/// then refreshes, until the refreshes are used up or it is stopped. In a
/// dry run it takes screenshots and counts the items it sees.
pub struct Runner {
    cfg: Config,
    counts: Vec<(Item, u32)>,
    done: u32,
    phase: Phase,
    bought: Vec<Item>,
    queue: Vec<Hit>,
    next: usize,
}

impl View for Runner {
    type V = ShopState;

    closed spec fn view(&self) -> ShopState {
        ShopState {
            items: self.cfg.items@,
            refreshes: self.cfg.refreshes,
            dry_run: self.cfg.dry_run,
            counts: self.counts@,
            done: self.done,
            phase: self.phase,
            bought: self.bought@,
            queue: self.queue@,
            next: self.next as int,
        }
    }
}

impl Runner {
    /// The runner holds a reachable state.
    pub open spec fn wf(&self) -> bool {
        shop_wf(self@)
    }

    /// The configuration the runner was made with, apart from its lists.
    pub closed spec fn settings(&self) -> (Duration, bool) {
        (self.cfg.tap_sleep, self.cfg.jitter)
    }

    /// A runner at the start of a run.
    pub fn new(cfg: Config) -> (r: Runner)
        ensures
            r.wf(),
            r@ == initial(cfg.items@, cfg.refreshes, cfg.dry_run),
            r.settings() == (cfg.tap_sleep, cfg.jitter),
    {
        let mut counts: Vec<(Item, u32)> = Vec::new();
        let mut k: usize = 0;
        while k < cfg.items.len()
            invariant
                0 <= k <= cfg.items.len(),
                counts@ == cfg.items@.take(k as int).map_values(|i: Item| (i, 0u32)),
            decreases cfg.items.len() - k,
        {
            counts.push((cfg.items[k], 0));
            assert(cfg.items@.take(k + 1).map_values(|i: Item| (i, 0u32)) =~= cfg.items@.take(
                k as int,
            ).map_values(|i: Item| (i, 0u32)).push((cfg.items@[k as int], 0u32)));
            k = k + 1;
        }
        assert(cfg.items@.take(k as int) =~= cfg.items@);
        let phase = if cfg.dry_run {
            Phase::DryTop
        } else {
            Phase::Top
        };
        let r = Runner { cfg, counts, done: 0, phase, bought: Vec::new(), queue: Vec::new(), next: 0 };
        assert(r@ =~= initial(r.cfg.items@, r.cfg.refreshes, r.cfg.dry_run));
        r
    }

    /// Refreshes done (live) or screenshots taken (dry run) so far.
    pub fn done(&self) -> (r: u32)
        ensures
            r == self@.done,
    {
        self.done
    }

    /// Counts per configured item so far.
    pub fn counts(&self) -> (r: &Vec<(Item, u32)>)
        ensures
            r@ == self@.counts,
    {
        &self.counts
    }

    /// The configured number of refreshes (or screenshots).
    pub fn refreshes(&self) -> (r: u32)
        ensures
            r == self@.refreshes,
    {
        self.cfg.refreshes
    }

    /// The pause after each tap.
    pub fn tap_sleep(&self) -> (r: Duration)
        ensures
            r == self.settings().0,
    {
        self.cfg.tap_sleep
    }

    /// Where to really tap for the tap target `point`: the point itself, or
    /// the point moved by a random jitter when the runner jitters taps.
    pub fn aim(&self, point: (u32, u32)) -> (r: (u32, u32))
        requires
            nudge_ok(point.0, JITTER_X),
            nudge_ok(point.1, JITTER_Y),
        ensures
            !self.settings().1 ==> r == point,
            self.settings().1 ==> exists|dx: i32, dy: i32|
                -JITTER_X <= dx <= JITTER_X && -JITTER_Y <= dy <= JITTER_Y && r == (
                    nudge(point.0, dx),
                    nudge(point.1, dy),
                ),
    {
        if self.cfg.jitter {
            jitter(point)
        } else {
            point
        }
    }

    fn finish(&mut self, o: Outcome) -> (a: Action)
        ensures
            final(self)@ == finish(old(self)@, o).0,
            a@ == finish(old(self)@, o).1,
            final(self).settings() == old(self).settings(),
    {
        self.phase = Phase::Finished(o);
        Action::Finish(o)
    }

    fn top(&mut self, stopped: bool) -> (a: Action)
        ensures
            final(self)@ == top(old(self)@, stopped).0,
            a@ == top(old(self)@, stopped).1,
            final(self).settings() == old(self).settings(),
    {
        if stopped {
            self.finish(Outcome::Done)
        } else {
            self.phase = Phase::Settled;
            Action::Pause(Pause::Settle)
        }
    }

    fn end_of_pass(&mut self, pass: Pass, stopped: bool) -> (a: Action)
        ensures
            final(self)@ == end_of_pass(old(self)@, pass, stopped).0,
            a@ == end_of_pass(old(self)@, pass, stopped).1,
            final(self).settings() == old(self).settings(),
    {
        match pass {
            Pass::First => {
                if stopped {
                    self.finish(Outcome::Done)
                } else {
                    let (a, b) = Geometry::swipe();
                    let (x1, y1) = a.px();
                    let (x2, y2) = b.px();
                    self.phase = Phase::Swiped;
                    Action::Swipe { x1, y1, x2, y2 }
                }
            },
            Pass::Second => {
                if stopped || self.done >= self.cfg.refreshes {
                    self.finish(Outcome::Done)
                } else {
                    let (x, y) = Geometry::refresh().px();
                    self.phase = Phase::Refreshing;
                    Action::Tap { x, y }
                }
            },
        }
    }

    fn next_hit(&mut self, pass: Pass, stopped: bool) -> (a: Action)
        requires
            old(self).next <= old(self).queue.len(),
            forall|k: int| 0 <= k < old(self).queue.len() ==> tappable(#[trigger] old(self).queue@[k]),
        ensures
            final(self)@ == next_hit(old(self)@, pass, stopped).0,
            a@ == next_hit(old(self)@, pass, stopped).1,
            final(self).settings() == old(self).settings(),
    {
        if self.next < self.queue.len() && !stopped {
            let (x, y) = Geometry::buy_point(&self.queue[self.next]);
            self.phase = Phase::Confirming(pass);
            Action::Tap { x, y }
        } else {
            self.end_of_pass(pass, stopped)
        }
    }

    /// One step of the run: takes what the last action produced and whether
    /// the stop flag is raised, and gives the next action (see `shop_step`).
    /// A run starts with `Event::Proceed` and ends at the first `Finish`.
    pub fn step(&mut self, event: Event, stopped: bool) -> (a: Action)
        requires
            old(self).wf(),
            event_ok(event@),
        ensures
            final(self).wf(),
            final(self)@ == shop_step(old(self)@, event@, stopped).0,
            a@ == shop_step(old(self)@, event@, stopped).1,
            final(self).settings() == old(self).settings(),
    {
        proof {
            lemma_step_keeps_wf(self@, event@, stopped);
        }
        let phase = self.phase;
        match phase {
            Phase::Top => self.top(stopped),
            Phase::Settled => {
                self.bought = Vec::new();
                self.phase = Phase::Scanning(Pass::First);
                Action::Capture(copy_items(&self.cfg.items))
            },
            Phase::Scanning(pass) => match event {
                Event::Screen(screen) => {
                    if !screen.visible {
                        if self.done == 0 {
                            self.finish(Outcome::NotDetected)
                        } else {
                            self.finish(Outcome::LeftShop)
                        }
                    } else {
                        self.queue = screen.hits;
                        self.next = 0;
                        self.next_hit(pass, stopped)
                    }
                },
                Event::Proceed => Action::Capture(unbought_items(&self.cfg.items, &self.bought)),
            },
            Phase::Confirming(pass) => {
                let (x, y) = Geometry::buy_confirm().px();
                self.phase = Phase::Confirmed(pass);
                Action::Tap { x, y }
            },
            Phase::Confirmed(pass) => {
                self.phase = Phase::Paid(pass);
                Action::Pause(Pause::AfterBuy)
            },
            Phase::Paid(pass) => {
                assert(self.next < self.queue.len());
                let item = self.queue[self.next].item;
                self.bought.push(item);
                bump_count(&mut self.counts, item);
                self.next = self.next + 1;
                self.phase = Phase::Recorded(pass);
                Action::Record { refresh: self.done, item }
            },
            Phase::Recorded(pass) => self.next_hit(pass, stopped),
            Phase::Swiped => {
                self.phase = Phase::SwipeSettled;
                Action::Pause(Pause::AfterSwipe)
            },
            Phase::SwipeSettled => {
                self.phase = Phase::Scanning(Pass::Second);
                Action::Capture(unbought_items(&self.cfg.items, &self.bought))
            },
            Phase::Refreshing => {
                let (x, y) = Geometry::refresh_confirm().px();
                self.phase = Phase::Refreshed;
                Action::Tap { x, y }
            },
            Phase::Refreshed => {
                self.done = self.done + 1;
                self.top(stopped)
            },
            Phase::DryTop => {
                if self.done < self.cfg.refreshes && !stopped {
                    self.phase = Phase::DryScanning;
                    Action::Capture(copy_items(&self.cfg.items))
                } else {
                    self.finish(Outcome::Done)
                }
            },
            Phase::DryScanning => match event {
                Event::Screen(screen) => {
                    self.done = self.done + 1;
                    bump_counts(&mut self.counts, &screen.hits);
                    self.phase = Phase::DryTop;
                    Action::Pause(Pause::Settle)
                },
                Event::Proceed => Action::Capture(copy_items(&self.cfg.items)),
            },
            Phase::Finished(o) => Action::Finish(o),
        }
    }

    /// The summary of the run so far: refreshes done, counts, and the gold
    /// they are worth (see `gold_total`).
    pub fn into_summary(self, duration: Duration, stopped: bool) -> (r: Summary)
        ensures
            r.refreshes == self@.done,
            r.counts@ == self@.counts,
            r.gold == gold_total(self@.counts),
            r.duration == duration,
            r.stopped == stopped,
    {
        let gold = total_gold(&self.counts);
        Summary { refreshes: self.done, counts: self.counts, gold, duration, stopped }
    }
}

/// Why a run failed.
#[derive(Clone, Copy, Debug, PartialEq, Eq, Structural)]
pub enum RunError {
    /// The Secret Shop was not on screen at the first look.
    ShopNotDetected,
}

impl RunError {
    /// What the error says.
    pub fn message(&self) -> (r: String)
        ensures
            r@ == "Secret Shop not detected: open it in landscape and retry"@,
    {
        "Secret Shop not detected: open it in landscape and retry".to_owned()
    }
}

/// How a finished run ends.
pub struct Ending {
    /// The summary of the run.
    pub summary: Summary,
    /// The stop flag is to be raised: the shop disappeared.
    pub raise_stop: bool,
    /// The closing history row: refreshes done and gold spent.
    pub run_end: (u32, u64),
}

/// The outcome a finished phase holds.
pub open spec fn outcome_of(p: Phase) -> Outcome {
    match p {
        Phase::Finished(o) => o,
        _ => Outcome::Done,
    }
}

impl Runner {
    /// The end of a finished run, given the time it took and whether the
    /// stop flag was raised: an error when the shop was not detected;
    /// otherwise the summary, whether to raise the stop flag (when the shop
    /// disappeared, which also counts as stopped), and the closing history
    /// row, written after every purchase row.
    pub fn conclude(self, duration: Duration, stopped: bool) -> (r: Result<Ending, RunError>)
        requires
            self.wf(),
            self@.phase is Finished,
        ensures
            (outcome_of(self@.phase) == Outcome::NotDetected) <==> (r is Err),
            r matches Err(e) ==> e == RunError::ShopNotDetected,
            r matches Ok(end) ==> ({
                let left = outcome_of(self@.phase) == Outcome::LeftShop;
                &&& end.raise_stop == left
                &&& end.summary.refreshes == self@.done
                &&& end.summary.counts@ == self@.counts
                &&& end.summary.gold == gold_total(self@.counts)
                &&& end.summary.duration == duration
                &&& end.summary.stopped == (stopped || left)
                &&& end.run_end == (self@.done, gold_total(self@.counts))
            }),
            r matches Ok(end) ==> counts_follow_items(end.summary.counts@, self@.items),
    {
        let o = match self.phase {
            Phase::Finished(o) => o,
            _ => Outcome::Done,
        };
        match o {
            Outcome::NotDetected => Err(RunError::ShopNotDetected),
            _ => {
                let left = match o {
                    Outcome::LeftShop => true,
                    _ => false,
                };
                let summary = self.into_summary(duration, stopped || left);
                let run_end = (summary.refreshes, summary.gold);
                Ok(Ending { summary, raise_stop: left, run_end })
            },
        }
    }
}

/// The gold of the counted items (see `gold_total`).
pub fn total_gold(counts: &Vec<(Item, u32)>) -> (r: u64)
    ensures
        r == gold_total(counts@),
{
    let mut g: u64 = 0;
    let mut k: usize = 0;
    while k < counts.len()
        invariant
            0 <= k <= counts.len(),
            g == gold_total(counts@.take(k as int)),
        decreases counts.len() - k,
    {
        let (item, n) = counts[k];
        let price = item.gold();
        assert(price <= 280_000);
        assert((price as u64) * (n as u64) <= 280_000 * 0xffff_ffffu64) by (nonlinear_arith)
            requires
                price <= 280_000,
                n <= 0xffff_ffffu32,
        ;
        assert(counts@.take(k + 1).drop_last() =~= counts@.take(k as int));
        g = g.wrapping_add((price as u64) * (n as u64));
        k = k + 1;
    }
    assert(counts@.take(k as int) =~= counts@);
    g
}

/// Every step keeps a reachable state reachable.
pub proof fn lemma_step_keeps_wf(s: ShopState, ev: Ev, stopped: bool)
    requires
        shop_wf(s),
        event_ok(ev),
    ensures
        shop_wf(shop_step(s, ev, stopped).0),
{
    if s.phase is Paid {
        lemma_bump_keeps_items(s.counts, s.queue[s.next].item);
    }
    if let Ev::Screen(_, hits) = ev {
        lemma_bump_all_keeps_items(s.counts, hits);
    }
}


/// Gold of the counted items, summed exactly.
pub open spec fn gold_sum(counts: Seq<(Item, u32)>) -> int
    decreases counts.len(),
{
    if counts.len() == 0 {
        0
    } else {
        gold_sum(counts.drop_last()) + item_gold(counts.last().0) * counts.last().1
    }
}

/// The gold of a summary is the exact sum of price times count whenever that
/// sum fits in a `u64`.
pub proof fn lemma_gold_exact(counts: Seq<(Item, u32)>)
    requires
        gold_sum(counts) <= u64::MAX,
    ensures
        gold_total(counts) == gold_sum(counts),
    decreases counts.len(),
{
    if counts.len() > 0 {
        let rest = counts.drop_last();
        let p = item_gold(counts.last().0) * counts.last().1;
        assert(p >= 0) by (nonlinear_arith)
            requires
                p == item_gold(counts.last().0) * counts.last().1,
        ;
        lemma_gold_sum_nonneg(rest);
        lemma_gold_exact(rest);
    }
}

/// Sums of prices times counts are not negative.
pub proof fn lemma_gold_sum_nonneg(counts: Seq<(Item, u32)>)
    ensures
        gold_sum(counts) >= 0,
    decreases counts.len(),
{
    if counts.len() > 0 {
        lemma_gold_sum_nonneg(counts.drop_last());
        let p = item_gold(counts.last().0) * counts.last().1;
        assert(p >= 0) by (nonlinear_arith)
            requires
                p == item_gold(counts.last().0) * counts.last().1,
        ;
    }
}

/// In a live run, every hit of a screenshot is bought in turn: once a
/// purchase is recorded and hits are left, the next step taps the Buy button
/// of the next hit, 905 pixels right of and 108 below its icon, keeping the
/// hits and moving to its confirmation, for either screenshot of the page.
pub proof fn lemma_every_hit_is_bought(s: ShopState, ev: Ev, pass: Pass)
    requires
        shop_wf(s),
        s.phase == Phase::Recorded(pass),
        s.next < s.queue.len(),
    ensures
        ({
            let (t, a) = shop_step(s, ev, false);
            let h = s.queue[s.next];
            &&& a == Act::Tap((h.x + 905) as u32, (h.y + 108) as u32)
            &&& t.phase == Phase::Confirming(pass)
            &&& t.queue == s.queue
            &&& t.next == s.next
        }),
{
    reveal_frac_points();
}

/// On a screenshot that shows the shop, for either screenshot of a page,
/// the hits to buy are exactly the hits reported, from the first on: with
/// hits and no stop flag, the next step taps the Buy button of the first.
pub proof fn lemma_screenshot_hits_are_bought(
    s: ShopState,
    hits: Seq<Hit>,
    pass: Pass,
    stopped: bool,
)
    requires
        shop_wf(s),
        event_ok(Ev::Screen(true, hits)),
        s.phase == Phase::Scanning(pass),
    ensures
        ({
            let (t, a) = shop_step(s, Ev::Screen(true, hits), stopped);
            &&& t.queue == hits
            &&& t.next == 0
            &&& hits.len() > 0 && !stopped ==> a == Act::Tap(
                (hits[0].x + 905) as u32,
                (hits[0].y + 108) as u32,
            ) && t.phase == Phase::Confirming(pass)
        }),
{
    reveal_frac_points();
}

/// The Buy button lies 905 pixels right of and 108 below an item icon.
proof fn reveal_frac_points()
    ensures
        frac_px(buy_offset().0, SCREEN_W) == 905,
        frac_px(buy_offset().1, SCREEN_H) == 108,
{
    assert(4718u32 * 1920u32 / 10000 == 905) by (nonlinear_arith);
    assert(1000u32 * 1080u32 / 10000 == 108) by (nonlinear_arith);
}

/// How many of `hits` are of `item`.
pub open spec fn hits_for(hits: Seq<Hit>, item: Item) -> nat
    decreases hits.len(),
{
    if hits.len() == 0 {
        0
    } else {
        hits_for(hits.drop_last(), item) + if hits.last().item == item {
            1nat
        } else {
            0nat
        }
    }
}

/// Bumping for `item` adds one to an item's first entry when it is that
/// item, and leaves it alone otherwise.
pub proof fn lemma_bump_first_entry(counts: Seq<(Item, u32)>, item: Item, k: int)
    requires
        0 <= k < counts.len(),
        is_first_entry(counts, counts[k].0, k),
        counts[k].0 == item ==> counts[k].1 < u32::MAX,
    ensures
        bump(counts, item)[k].1 == if counts[k].0 == item {
            counts[k].1 + 1
        } else {
            counts[k].1 as int
        },
{
    if exists|c: int| is_first_entry(counts, item, c) {
        let c = choose|c: int| is_first_entry(counts, item, c);
        if counts[k].0 == item {
            if c < k {
                assert(counts[c].0 != counts[k].0);
            }
            if c > k {
                assert(counts[k].0 != item);
            }
        } else {
            assert(c != k);
        }
    } else {
        if counts[k].0 == item {
            assert(is_first_entry(counts, item, k));
        }
    }
}

/// Counting the hits of a screenshot adds to each item's first entry the
/// number of hits of that item (when the sum fits in a `u32`).
pub proof fn lemma_bump_all_counts_hits(counts: Seq<(Item, u32)>, hits: Seq<Hit>, k: int)
    requires
        0 <= k < counts.len(),
        is_first_entry(counts, counts[k].0, k),
        counts[k].1 + hits_for(hits, counts[k].0) <= u32::MAX,
    ensures
        bump_all(counts, hits)[k].1 == counts[k].1 + hits_for(hits, counts[k].0),
    decreases hits.len(),
{
    if hits.len() > 0 {
        let rest = hits.drop_last();
        lemma_bump_all_counts_hits(counts, rest, k);
        lemma_bump_all_keeps_items(counts, rest);
        let prev = bump_all(counts, rest);
        assert(is_first_entry(prev, prev[k].0, k)) by {
            assert forall|j: int| 0 <= j < k implies prev[j].0 != prev[k].0 by {
                assert(prev[j].0 == counts[j].0);
            }
        }
        lemma_bump_first_entry(prev, hits.last().item, k);
    }
}

/// A dry-run screenshot adds to the count of each configured item the
/// number of its hits on the screenshot, and counts one more screenshot.
pub proof fn lemma_dry_screenshot_counts(s: ShopState, visible: bool, hits: Seq<Hit>, k: int)
    requires
        shop_wf(s),
        s.phase is DryScanning,
        0 <= k < s.counts.len(),
        is_first_entry(s.counts, s.items[k], k),
        s.counts[k].1 + hits_for(hits, s.items[k]) <= u32::MAX,
    ensures
        ({
            let t = shop_step(s, Ev::Screen(visible, hits), false).0;
            &&& t.counts[k].0 == s.items[k]
            &&& t.counts[k].1 == s.counts[k].1 + hits_for(hits, s.items[k])
            &&& t.done == s.done + 1
        }),
{
    lemma_bump_all_counts_hits(s.counts, hits, k);
    lemma_bump_all_keeps_items(s.counts, hits);
}

/// A finished run stays finished: no step after the end taps, swipes,
/// records a purchase or changes the state.
pub proof fn lemma_finished_is_final(s: ShopState, ev: Ev, stopped: bool)
    requires
        s.phase is Finished,
    ensures
        shop_step(s, ev, stopped).0 == s,
        shop_step(s, ev, stopped).1 == Act::Finish(outcome_of(s.phase)),
{
}

/// A dry run never touches the screen and writes no history: no step of it
/// taps, swipes or records.
pub proof fn lemma_dry_run_never_touches(s: ShopState, ev: Ev, stopped: bool)
    requires
        shop_wf(s),
        s.dry_run,
    ensures
        !(shop_step(s, ev, stopped).1 is Tap),
        !(shop_step(s, ev, stopped).1 is Swipe),
        !(shop_step(s, ev, stopped).1 is Record),
{
}

/// The refresh count never passes the configured number: a live step leaves
/// it unchanged, except the step that completes a refresh, which adds one
/// and stays within the budget; and the Refresh button is tapped only while
/// refreshes are left.
pub proof fn lemma_refreshes_within_budget(s: ShopState, ev: Ev, stopped: bool)
    requires
        shop_wf(s),
        event_ok(ev),
        !s.dry_run,
    ensures
        ({
            let t = shop_step(s, ev, stopped).0;
            &&& t.done <= t.refreshes
            &&& t.done == s.done || (s.phase is Refreshed && t.done == s.done + 1)
            &&& t.phase is Refreshing ==> !(s.phase is Refreshing) ==> s.done < s.refreshes
        }),
{
}

/// The shop is refreshed only after both looks at a page: the Refresh
/// button is tapped only when the purchases of the second screenshot are
/// over, and each refresh is confirmed right after.
pub proof fn lemma_refresh_after_second_look(s: ShopState, ev: Ev, stopped: bool)
    requires
        shop_wf(s),
        shop_step(s, ev, stopped).0.phase is Refreshing,
    ensures
        s.phase == Phase::Scanning(Pass::Second) || s.phase == Phase::Recorded(Pass::Second),
        shop_step(shop_step(s, ev, stopped).0, Ev::Proceed, stopped).1 == Act::Tap(
            frac_px(refresh_confirm().0, SCREEN_W),
            frac_px(refresh_confirm().1, SCREEN_H),
        ),
{
}

/// When a screenshot does not show the shop, nothing is tapped: the run
/// ends, with an error if no refresh was done yet.
pub proof fn lemma_hidden_shop_taps_nothing(s: ShopState, hits: Seq<Hit>, stopped: bool)
    requires
        s.phase is Scanning,
    ensures
        shop_step(s, Ev::Screen(false, hits), stopped).1 == Act::Finish(
            if s.done == 0 {
                Outcome::NotDetected
            } else {
                Outcome::LeftShop
            },
        ),
{
}

/// The points at which the stop flag is checked: the top of each loop,
/// before each purchase, after each screenshot's purchases and after each
/// refresh.
pub open spec fn checks_stop(s: ShopState, ev: Ev) -> bool {
    ||| s.phase is Top
    ||| s.phase is Recorded
    ||| s.phase is Refreshed
    ||| s.phase is DryTop
    ||| (s.phase is Scanning && ev is Screen)
}

/// Once the stop flag is raised, the run ends at the next point where the
/// flag is checked, without starting another purchase, swipe or refresh.
pub proof fn lemma_stop_is_honoured(s: ShopState, ev: Ev)
    requires
        shop_wf(s),
        checks_stop(s, ev),
    ensures
        shop_step(s, ev, true).1 is Finish,
{
}

/// An item bought on the first screenshot of a page is not searched for on
/// the second: the second look asks for exactly the configured items not
/// bought yet, in their order.
pub proof fn lemma_second_look_skips_bought(s: ShopState, ev: Ev, stopped: bool)
    requires
        s.phase is SwipeSettled,
    ensures
        shop_step(s, ev, stopped).1 == Act::Capture(unbought(s.items, s.bought)),
        forall|i: Item| s.bought.contains(i) ==> !unbought(s.items, s.bought).contains(i),
        forall|i: Item| unbought(s.items, s.bought).contains(i) ==> s.items.contains(i),
{
    lemma_unbought(s.items, s.bought);
}

/// `unbought(items, bought)` holds no bought item and only configured ones.
pub proof fn lemma_unbought(items: Seq<Item>, bought: Seq<Item>)
    ensures
        forall|i: Item| #[trigger] bought.contains(i) ==> !unbought(items, bought).contains(i),
        forall|i: Item| #[trigger] unbought(items, bought).contains(i) ==> items.contains(i),
    decreases items.len(),
{
    if items.len() > 0 {
        lemma_unbought(items.drop_last(), bought);
        let rest = unbought(items.drop_last(), bought);
        assert forall|i: Item| unbought(items, bought).contains(i) implies items.contains(i) by {
            if !bought.contains(items.last()) {
                let k = choose|k: int| 0 <= k < unbought(items, bought).len() && unbought(items, bought)[k] == i;
                if k < rest.len() {
                    assert(rest[k] == i);
                    assert(rest.contains(i));
                    let m = choose|m: int| 0 <= m < items.drop_last().len() && items.drop_last()[m] == i;
                    assert(items[m] == i);
                } else {
                    assert(items[items.len() - 1] == i);
                }
            } else {
                assert(rest.contains(i));
                let m = choose|m: int| 0 <= m < items.drop_last().len() && items.drop_last()[m] == i;
                assert(items[m] == i);
            }
        }
        assert forall|i: Item| bought.contains(i) implies !unbought(items, bought).contains(i) by {
            if !bought.contains(items.last()) && unbought(items, bought).contains(i) {
                let k = choose|k: int| 0 <= k < unbought(items, bought).len() && unbought(items, bought)[k] == i;
                if k < rest.len() {
                    assert(rest[k] == i);
                }
            }
        }
    }
}

/// A purchase is recorded exactly once, for the hit whose Buy button was
/// tapped: recording it bumps that item's count, adds the item to those
/// bought on this page, moves on to the next hit, and writes the current
/// refresh number.
pub proof fn lemma_purchase_recorded(s: ShopState, ev: Ev, stopped: bool)
    requires
        shop_wf(s),
        s.phase is Paid,
    ensures
        ({
            let (t, a) = shop_step(s, ev, stopped);
            let item = s.queue[s.next].item;
            &&& a == Act::Record(s.done, item)
            &&& t.counts == bump(s.counts, item)
            &&& t.bought == s.bought.push(item)
            &&& t.next == s.next + 1
            &&& t.phase is Recorded
        }),
{
}

/// A jittered coordinate stays within `bound` pixels of the target (for
/// targets at least `bound` pixels from 0 and below `2^31 - bound`).
pub proof fn lemma_jitter_within(c: u32, d: i32, bound: i32)
    requires
        0 <= bound <= c,
        c + bound <= i32::MAX,
        -bound <= d <= bound,
    ensures
        c - bound <= nudge(c, d) <= c + bound,
        nudge(c, d) == c + d,
{
    assert((c as i32) == c);
}

} // verus!
