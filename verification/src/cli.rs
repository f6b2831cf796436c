//! The run limit given on the command line: a number of refreshes, or a
//! skystone budget converted to refreshes.
use vstd::prelude::*;

verus! {

/// Skystones one refresh of the Secret Shop costs.
pub const SKYSTONES_PER_REFRESH: u32 = 3;

/// How long a run goes on; the command line requires exactly one of the two.
#[derive(Clone, Copy, Debug, PartialEq, Eq, Structural)]
pub enum RunLimit {
    /// This many refreshes.
    Refreshes(u32),
    /// As many refreshes as this many skystones pay for.
    Skystones(u32),
}

/// Why a run limit gives no run.
#[derive(Clone, Copy, Debug, PartialEq, Eq, Structural)]
pub enum LimitError {
    /// The skystone budget does not pay for a single refresh.
    TooFewSkystones,
}

/// The number of refreshes a limit allows.
pub open spec fn refreshes_of(limit: RunLimit) -> Result<u32, LimitError> {
    match limit {
        RunLimit::Refreshes(n) => Ok(n),
        RunLimit::Skystones(s) => if s / SKYSTONES_PER_REFRESH > 0 {
            Ok(s / SKYSTONES_PER_REFRESH)
        } else {
            Err(LimitError::TooFewSkystones)
        },
    }
}

impl RunLimit {
    /// The number of refreshes: the given number, or the skystones divided
    /// by `SKYSTONES_PER_REFRESH` (rounded down), which must be at least 1.
    pub fn refreshes(&self) -> (r: Result<u32, LimitError>)
        ensures
            r == refreshes_of(*self),
            *self matches RunLimit::Refreshes(n) ==> r == Ok::<u32, LimitError>(n),
            *self matches RunLimit::Skystones(k) ==> (k >= 3 ==> r == Ok::<u32, LimitError>(k / 3)),
            *self matches RunLimit::Skystones(k) ==> (k < 3 ==> r is Err),
    {
        match self {
            RunLimit::Refreshes(n) => Ok(*n),
            RunLimit::Skystones(s) => {
                let n = *s / SKYSTONES_PER_REFRESH;
                if n > 0 {
                    Ok(n)
                } else {
                    Err(LimitError::TooFewSkystones)
                }
            },
        }
    }
}

/// Skystones spent on `refreshes` refreshes.
pub fn skystones_spent(refreshes: u32) -> (r: u64)
    ensures
        r == refreshes * SKYSTONES_PER_REFRESH,
{
    assert(refreshes as u64 * 3 <= 0xffff_ffffu64 * 3);
    refreshes as u64 * SKYSTONES_PER_REFRESH as u64
}

/// A number of refreshes given on the command line is taken as it is, for
/// every number; a skystone budget gives its third, rounded down, and is
/// refused only below one refresh's cost.
pub proof fn lemma_limit_refreshes(n: u32, stones: u32)
    ensures
        refreshes_of(RunLimit::Refreshes(n)) == Ok::<u32, LimitError>(n),
        stones >= 3 ==> refreshes_of(RunLimit::Skystones(stones)) == Ok::<u32, LimitError>(stones / 3),
        stones < 3 ==> refreshes_of(RunLimit::Skystones(stones)) == Err::<u32, LimitError>(
            LimitError::TooFewSkystones,
        ),
{
}

/// A skystone budget buys as many refreshes as it pays for and no more: the
/// refreshes cost at most the budget, and one more would cost more.
pub proof fn lemma_budget_respected(s: u32)
    requires
        s >= SKYSTONES_PER_REFRESH,
    ensures
        refreshes_of(RunLimit::Skystones(s)) matches Ok(n) && n * SKYSTONES_PER_REFRESH <= s && s < (n
            + 1) * SKYSTONES_PER_REFRESH,
{
}

} // verus!
