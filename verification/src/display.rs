//! The display-size guard: phones that are not 16:9 get a temporary
//! `wm size` override so that screenshots come out at the reference size;
//! the override is undone when the guard is reset.
use vstd::prelude::*;

use crate::adb::{invocation, wm_size_reset_args, wm_size_set_args, Adb};
use crate::matcher::{SCREEN_H, SCREEN_W};
use crate::text::{decimal, push_decimal, texts};

verus! {

/// A screenshot of `w` x `h` has the reference size.
pub open spec fn fits(w: u32, h: u32) -> bool {
    w == SCREEN_W && h == SCREEN_H
}

/// Why the display cannot be used.
#[derive(Clone, Copy, Debug, PartialEq, Eq, Structural)]
pub enum DisplayError {
    /// The screen is `w` x `h` and overriding its size was not allowed.
    WrongSize { w: u32, h: u32 },
    /// After the override the screen is still `w` x `h`.
    OverrideFailed { w: u32, h: u32 },
}

/// The text of a display error.
pub open spec fn display_error_text(e: DisplayError) -> Seq<char> {
    match e {
        DisplayError::WrongSize { w, h } => "screen is "@ + decimal(w as nat) + "x"@ + decimal(h as nat)
            + ", need "@ + decimal(SCREEN_W as nat) + "x"@ + decimal(SCREEN_H as nat)
            + " (drop --no-display-override or set it on the device)"@,
        DisplayError::OverrideFailed { w, h } => "display override failed, screen is "@ + decimal(
            w as nat,
        ) + "x"@ + decimal(h as nat) + " (is the game open in landscape?)"@,
    }
}

impl DisplayError {
    /// What the error says: `screen is WxH, need 1920x1080 (drop
    /// --no-display-override or set it on the device)`, or `display override
    /// failed, screen is WxH (is the game open in landscape?)`.
    pub fn message(&self) -> (r: String)
        ensures
            r@ == display_error_text(*self),
    {
        let mut r = String::new();
        match self {
            DisplayError::WrongSize { w, h } => {
                r.append("screen is ");
                push_decimal(&mut r, *w as u64);
                r.append("x");
                push_decimal(&mut r, *h as u64);
                r.append(", need ");
                push_decimal(&mut r, SCREEN_W as u64);
                r.append("x");
                push_decimal(&mut r, SCREEN_H as u64);
                r.append(" (drop --no-display-override or set it on the device)");
            },
            DisplayError::OverrideFailed { w, h } => {
                r.append("display override failed, screen is ");
                push_decimal(&mut r, *w as u64);
                r.append("x");
                push_decimal(&mut r, *h as u64);
                r.append(" (is the game open in landscape?)");
            },
        }
        r
    }
}

/// What to do to get a screen of the reference size.
pub enum DisplayPlan {
    /// Nothing: the screen already has it.
    Ready,
    /// Run this adb invocation (it sets the logical display size), record
    /// that with `overridden`, wait, and check the next screenshot with
    /// `confirm`.
    Override(Vec<String>),
}

/// Forces a 1920x1080 logical display for as long as it is held; `reset`
/// undoes the override.
pub struct DisplayGuard {
    adb: Adb,
    overridden: bool,
}

impl View for DisplayGuard {
    /// The serial of the device and whether the display size is overridden.
    type V = (Option<Seq<char>>, bool);

    closed spec fn view(&self) -> (Option<Seq<char>>, bool) {
        (self.adb@, self.overridden)
    }
}

/// The override that `acquire` asks for: the reference size in portrait,
/// 1080x1920.
pub open spec fn override_args(serial: Option<Seq<char>>) -> Seq<Seq<char>> {
    invocation(serial, wm_size_set_args(SCREEN_H, SCREEN_W))
}

/// The guard after a reset, and whether the reset runs `wm size reset`.
pub open spec fn reset_model(g: (Option<Seq<char>>, bool)) -> ((Option<Seq<char>>, bool), bool) {
    ((g.0, false), g.1)
}

/// The guard after the override went through.
pub open spec fn override_model(g: (Option<Seq<char>>, bool)) -> (Option<Seq<char>>, bool) {
    (g.0, true)
}

impl DisplayGuard {
    /// Decides, from the size `w` x `h` of a first screenshot, whether the
    /// display can be used as it is, must be overridden (when allowed), or
    /// cannot be used. The guard starts without an override.
    pub fn acquire(adb: &Adb, allow_override: bool, w: u32, h: u32) -> (r: Result<
        (DisplayGuard, DisplayPlan),
        DisplayError,
    >)
        ensures
            fits(w, h) ==> (r matches Ok((g, DisplayPlan::Ready)) && g@ == (adb@, false)),
            !fits(w, h) && !allow_override ==> r == Err::<(DisplayGuard, DisplayPlan), DisplayError>(
                DisplayError::WrongSize { w, h },
            ),
            !fits(w, h) && allow_override ==> (r matches Ok((g, DisplayPlan::Override(args))) && g@
                == (adb@, false) && texts(args@) == override_args(adb@)),
            (r matches Ok((_, DisplayPlan::Ready))) <==> (w == 1920 && h == 1080),
    {
        let guard = DisplayGuard { adb: adb.duplicate(), overridden: false };
        if w == SCREEN_W && h == SCREEN_H {
            return Ok((guard, DisplayPlan::Ready));
        }
        if !allow_override {
            return Err(DisplayError::WrongSize { w, h });
        }
        let args = guard.adb.wm_size_set(SCREEN_H, SCREEN_W);
        Ok((guard, DisplayPlan::Override(args)))
    }

    /// Records that the override went through.
    pub fn overridden(&mut self)
        ensures
            final(self)@ == override_model(old(self)@),
    {
        self.overridden = true;
    }

    /// Whether the display size is overridden.
    pub fn is_overridden(&self) -> (r: bool)
        ensures
            r == self@.1,
    {
        self.overridden
    }

    /// Checks the screenshot taken after the override: of the reference
    /// size, the guard is held; otherwise the override is reset (the
    /// returned invocation, if any, undoes it) and the display cannot be
    /// used.
    pub fn confirm(&mut self, w: u32, h: u32) -> (r: Result<(), (DisplayError, Option<Vec<String>>)>)
        ensures
            fits(w, h) ==> (r is Ok) && final(self)@ == old(self)@,
            (r is Ok) <==> (w == 1920 && h == 1080),
            !fits(w, h) ==> final(self)@ == reset_model(old(self)@).0,
            !fits(w, h) ==> (r matches Err((e, reset)) && e == (DisplayError::OverrideFailed { w, h })
                && (reset is Some) == reset_model(old(self)@).1 && (reset matches Some(args) ==> texts(
                args@,
            ) == invocation(old(self)@.0, wm_size_reset_args()))),
    {
        if w == SCREEN_W && h == SCREEN_H {
            Ok(())
        } else {
            let reset = self.reset();
            Err((DisplayError::OverrideFailed { w, h }, reset))
        }
    }

    /// Undoes the override, if there is one: returns the adb invocation that
    /// restores the display size, and from then on the guard holds no
    /// override (also when that invocation fails).
    pub fn reset(&mut self) -> (r: Option<Vec<String>>)
        ensures
            final(self)@ == reset_model(old(self)@).0,
            (r is Some) == reset_model(old(self)@).1,
            r matches Some(args) ==> texts(args@) == invocation(old(self)@.0, wm_size_reset_args()),
    {
        if !self.overridden {
            return None;
        }
        self.overridden = false;
        Some(self.adb.wm_size_reset())
    }
}

/// Only a screenshot of exactly 1920x1080 has the reference size: any other
/// size, smaller or larger, needs the override.
pub proof fn lemma_fits_exactly(w: u32, h: u32)
    ensures
        fits(w, h) <==> (w == 1920 && h == 1080),
{
}

/// A reset undoes the override once: a second reset runs nothing.
pub proof fn lemma_reset_once(g: (Option<Seq<char>>, bool))
    ensures
        !reset_model(reset_model(g).0).1,
        reset_model(reset_model(g).0).0 == reset_model(g).0,
{
}

/// Every override that went through is undone by exactly one reset.
pub proof fn lemma_override_undone(g: (Option<Seq<char>>, bool))
    ensures
        reset_model(override_model(g)).1,
        !reset_model(reset_model(override_model(g)).0).1,
        reset_model(override_model(g)).0.0 == g.0,
{
}

} // verus!
