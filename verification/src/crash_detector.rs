//! Detection of crash loops at startup.

use vstd::prelude::*;

use crate::config::EngineConfig;

verus! {

/// A restart within this time of the last one counts as a crash.
pub const RAPID_RESTART_MS: u64 = 60_000;

/// Crashes count together within this time.
pub const CRASH_WINDOW_MS: u64 = 300_000;

/// The number of starts in a row that make a crash loop.
pub const CRASH_LIMIT: u32 = 3;

/// What is kept of the earlier starts.
pub struct CrashState {
    pub startup_timestamp_ms: u64,
    pub crash_count: u32,
    pub first_crash_timestamp_ms: u64,
    pub last_known_good_config: Option<EngineConfig>,
}

/// How a start goes on.
pub struct Startup {
    /// Whether a crash loop was found.
    pub enter_safe_mode: bool,
    /// What to keep for the next start; in a crash loop what is kept stays as it is.
    pub new_state: Option<CrashState>,
}

/// The time from `then` to `now`, zero where `then` is later.
pub open spec fn elapsed(now: u64, then: u64) -> int {
    if now >= then {
        now - then
    } else {
        0
    }
}

/// The count and the first crash after a start at `now_ms` that is not the end of a crash loop.
pub open spec fn counted(prev: Option<(u64, u32, u64)>, now_ms: u64) -> (u32, u64) {
    match prev {
        Some((startup, count, first)) => {
            if elapsed(now_ms, startup) >= RAPID_RESTART_MS {
                (1, now_ms)
            } else if elapsed(now_ms, first) >= CRASH_WINDOW_MS {
                (2, now_ms)
            } else {
                ((count + 1) as u32, first)
            }
        },
        None => (1, now_ms),
    }
}

/// Whether a start at `now_ms` shows a crash loop.
pub open spec fn is_loop(prev: Option<(u64, u32, u64)>, now_ms: u64) -> bool {
    prev matches Some((startup, count, first)) && elapsed(now_ms, startup) < RAPID_RESTART_MS
        && elapsed(now_ms, first) < CRASH_WINDOW_MS && count + 1 >= CRASH_LIMIT
}

impl CrashState {
    /// The startup time, the count and the first crash.
    pub open spec fn figures(self) -> (u64, u32, u64) {
        (self.startup_timestamp_ms, self.crash_count, self.first_crash_timestamp_ms)
    }
}

pub open spec fn figures_of(prev: Option<CrashState>) -> Option<(u64, u32, u64)> {
    match prev {
        Some(p) => Some(p.figures()),
        None => None,
    }
}

/// Looks for crash loops over the starts that are kept in a file.
pub struct CrashDetector {
    pub state_file: String,
}

impl CrashDetector {
    pub fn new(state_file: String) -> (d: Self)
        ensures
            d.state_file == state_file,
    {
        CrashDetector { state_file }
    }

    /// Decides how a start at `now_ns` goes on, where the file holds `prev`.
    pub fn check_and_record_startup(&self, prev: Option<CrashState>, now_ns: u64) -> (r: Startup)
        requires
            countable(prev, (now_ns / 1_000_000) as u64),
        ensures
            startup_goes(prev, (now_ns / 1_000_000) as u64, r),
    {
        next_startup(prev, now_ns / 1_000_000)
    }
}

/// Whether `r` is how a start at `now_ms` goes on after the earlier ones.
pub open spec fn startup_goes(prev: Option<CrashState>, now_ms: u64, r: Startup) -> bool {
    &&& r.enter_safe_mode == is_loop(figures_of(prev), now_ms)
    &&& match r.new_state {
        Some(s) => {
            &&& !r.enter_safe_mode
            &&& s.startup_timestamp_ms == now_ms
            &&& (s.crash_count, s.first_crash_timestamp_ms) == counted(figures_of(prev), now_ms)
            &&& s.last_known_good_config == (match prev {
                Some(p) => p.last_known_good_config,
                None => None,
            })
        },
        None => r.enter_safe_mode,
    }
}

/// Whether the crashes can be counted: where a quick restart within the window adds one, one more is
/// a machine number.
pub open spec fn countable(prev: Option<CrashState>, now_ms: u64) -> bool {
    prev matches Some(p) ==> (elapsed(now_ms, p.startup_timestamp_ms) < RAPID_RESTART_MS && elapsed(
        now_ms,
        p.first_crash_timestamp_ms,
    ) < CRASH_WINDOW_MS ==> p.crash_count < u32::MAX)
}

/// Decides how a start at `now_ms` goes on after the earlier ones.
pub fn next_startup(prev: Option<CrashState>, now_ms: u64) -> (r: Startup)
    requires
        countable(prev, now_ms),
    ensures
        startup_goes(prev, now_ms, r),
{
    match prev {
        Some(prev) => {
            let elapsed_ms: u64 = now_ms.saturating_sub(prev.startup_timestamp_ms);
            let total_elapsed_ms: u64 = now_ms.saturating_sub(prev.first_crash_timestamp_ms);
            if elapsed_ms < RAPID_RESTART_MS && total_elapsed_ms < CRASH_WINDOW_MS {
                let new_count: u32 = prev.crash_count + 1;
                if new_count >= CRASH_LIMIT {
                    Startup { enter_safe_mode: true, new_state: None }
                } else {
                    Startup {
                        enter_safe_mode: false,
                        new_state: Some(
                            CrashState {
                                startup_timestamp_ms: now_ms,
                                crash_count: new_count,
                                first_crash_timestamp_ms: prev.first_crash_timestamp_ms,
                                last_known_good_config: prev.last_known_good_config,
                            },
                        ),
                    }
                }
            } else if elapsed_ms < RAPID_RESTART_MS {
                Startup {
                    enter_safe_mode: false,
                    new_state: Some(
                        CrashState {
                            startup_timestamp_ms: now_ms,
                            crash_count: 2,
                            first_crash_timestamp_ms: now_ms,
                            last_known_good_config: prev.last_known_good_config,
                        },
                    ),
                }
            } else {
                Startup {
                    enter_safe_mode: false,
                    new_state: Some(
                        CrashState {
                            startup_timestamp_ms: now_ms,
                            crash_count: 1,
                            first_crash_timestamp_ms: now_ms,
                            last_known_good_config: prev.last_known_good_config,
                        },
                    ),
                }
            }
        },
        None => Startup {
            enter_safe_mode: false,
            new_state: Some(
                CrashState {
                    startup_timestamp_ms: now_ms,
                    crash_count: 1,
                    first_crash_timestamp_ms: now_ms,
                    last_known_good_config: None,
                },
            ),
        },
    }
}

/// What is kept after a start at `now_ms`.
pub open spec fn next_figures(prev: Option<(u64, u32, u64)>, now_ms: u64) -> Option<(u64, u32, u64)> {
    if is_loop(prev, now_ms) {
        prev
    } else {
        let c = counted(prev, now_ms);
        Some((now_ms, c.0, c.1))
    }
}

/// The first start never enters safe mode, and the third in quick succession does.
pub proof fn law_rapid_crashes_enter_safe_mode(t1: u64, t2: u64, t3: u64)
    requires
        t1 <= t2 <= t3,
        t2 - t1 < RAPID_RESTART_MS,
        t3 - t2 < RAPID_RESTART_MS,
    ensures
        !is_loop(None, t1),
        !is_loop(next_figures(None, t1), t2),
        is_loop(next_figures(next_figures(None, t1), t2), t3),
{
}

/// After a start that did not follow quickly the count is one.
pub proof fn law_slow_start_resets(prev: Option<(u64, u32, u64)>, now_ms: u64)
    requires
        prev matches Some(p) ==> elapsed(now_ms, p.0) >= RAPID_RESTART_MS,
    ensures
        !is_loop(prev, now_ms),
        next_figures(prev, now_ms) == Some((now_ms, 1u32, now_ms)),
{
}

/// A count that is kept stays below the limit, so that it never overflows.
pub proof fn law_kept_count_is_below_limit(prev: Option<(u64, u32, u64)>, now_ms: u64)
    requires
        prev matches Some(p) ==> p.1 < CRASH_LIMIT,
    ensures
        next_figures(prev, now_ms) matches Some(n) ==> n.1 < CRASH_LIMIT,
{
}

/// How a start goes on, by the times alone. A start within a minute of the one before it, and within
/// five minutes of the first crash, counts one crash more; with the third, safe mode is entered and
/// nothing is kept. A start within a minute of the one before, but later than that after the first
/// crash, begins a new row as its second crash; any other start begins one as its first.
pub proof fn law_start_is_judged_by_its_times(prev: Option<CrashState>, now_ms: u64, r: Startup)
    requires
        call_ensures(next_startup, (prev, now_ms), r),
    ensures
        prev is None ==> !r.enter_safe_mode && r.new_state is Some && r.new_state->0.crash_count == 1
            && r.new_state->0.first_crash_timestamp_ms == now_ms
            && r.new_state->0.startup_timestamp_ms == now_ms
            && r.new_state->0.last_known_good_config is None,
        prev matches Some(p) ==> {
            let quick = now_ms < p.startup_timestamp_ms + 60_000;
            let recent = now_ms < p.first_crash_timestamp_ms + 300_000;
            let third = p.crash_count + 1 >= 3;
            &&& r.enter_safe_mode <==> quick && recent && third
            &&& r.new_state is None <==> r.enter_safe_mode
            &&& !r.enter_safe_mode ==> r.new_state->0.startup_timestamp_ms == now_ms
                && r.new_state->0.last_known_good_config == p.last_known_good_config
            &&& quick && recent && !third ==> r.new_state->0.crash_count == p.crash_count + 1
                && r.new_state->0.first_crash_timestamp_ms == p.first_crash_timestamp_ms
            &&& quick && !recent ==> r.new_state->0.crash_count == 2
                && r.new_state->0.first_crash_timestamp_ms == now_ms
            &&& !quick ==> r.new_state->0.crash_count == 1
                && r.new_state->0.first_crash_timestamp_ms == now_ms
        },
{
}

/// A start is judged by milliseconds, which are the nanoseconds of the clock by a million.
pub proof fn law_start_is_judged_in_milliseconds(
    d: CrashDetector,
    prev: Option<CrashState>,
    now_ns: u64,
    r: Startup,
)
    requires
        call_ensures(CrashDetector::check_and_record_startup, (&d, prev, now_ns), r),
    ensures
        r.new_state matches Some(s) ==> s.startup_timestamp_ms == now_ns / 1_000_000,
        prev matches Some(p) ==> (r.enter_safe_mode <==> now_ns / 1_000_000
            < p.startup_timestamp_ms + 60_000 && now_ns / 1_000_000 < p.first_crash_timestamp_ms
            + 300_000 && p.crash_count >= 2),
        prev is None ==> !r.enter_safe_mode,
{
}

} // verus!
