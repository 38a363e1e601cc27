use vstd::prelude::*;

verus! {

/// Number of per-second frame counts kept for the statistics.
pub const MAX_FPS_HISTORY: usize = 10;

/// Frames per second that the observer displays at most.
pub const MAX_FRAMERATE: u64 = 60;

/// Length of a statistics window, in microseconds.
pub const SECOND_US: u64 = 1_000_000;

/// Shortest time between two displayed frames, in microseconds.
pub const MIN_FRAMETIME_US: u64 = SECOND_US / MAX_FRAMERATE;

/// Frame statistics of the observer. Instants are microseconds since a
/// fixed origin chosen by the caller.
#[derive(Clone, Debug)]
pub struct PerfState {
    pub open: bool,
    /// Start of the current one-second window.
    pub last_second: Option<u64>,
    /// Frames counted in each finished window, oldest first.
    pub fps_history: Vec<usize>,
    pub min_fps: usize,
    pub max_fps: usize,
    /// Frames counted in the current window.
    pub frames: usize,
    /// When the last frame was displayed.
    pub last_frame: Option<u64>,
}

/// Figures of the frame statistics panel.
#[derive(Clone, Copy, Debug, PartialEq, Eq, Structural)]
pub struct FpsSummary {
    pub current: usize,
    pub average: usize,
    pub min: usize,
    pub max: usize,
}

/// Time from `earlier` to `later`, zero if `later` is not later.
pub open spec fn elapsed(later: u64, earlier: u64) -> nat {
    if later >= earlier {
        (later - earlier) as nat
    } else {
        0
    }
}

/// Sum of a sequence of counts.
pub open spec fn seq_sum(s: Seq<usize>) -> int
    decreases s.len(),
{
    if s.len() == 0 {
        0
    } else {
        seq_sum(s.drop_last()) + s.last()
    }
}

/// The history that the statistics are taken over: the oldest count goes
/// once the history holds more than the cap.
pub open spec fn trimmed_history(h: Seq<usize>) -> Seq<usize> {
    if h.len() > MAX_FPS_HISTORY {
        h.drop_first()
    } else {
        h
    }
}

/// The instant `t + d`, held at the largest instant.
pub open spec fn later_by(t: u64, d: u64) -> u64 {
    if t as int + d as int > u64::MAX as int {
        u64::MAX
    } else {
        (t + d) as u64
    }
}

/// The instant to hold the runner until, for a frame displayed at `now`
/// after the one displayed at `last`: set when the two are closer than the
/// shortest frame time.
pub open spec fn frame_wake(last: Option<u64>, now: u64) -> Option<u64> {
    match last {
        Some(l) => if elapsed(now, l) < MIN_FRAMETIME_US {
            Some(later_by(l, MIN_FRAMETIME_US))
        } else {
            None
        },
        None => None,
    }
}

/// A frame-limit wake is at least the shortest frame time after the frame
/// before, and exactly that when the clock has room for it; and the frame
/// that triggers it is itself sooner than that.
pub proof fn lemma_frame_wake_not_early(last: Option<u64>, now: u64)
    ensures
        frame_wake(last, now) matches Some(w) ==> last matches Some(l) && elapsed(now, l)
            < MIN_FRAMETIME_US && (l as int + MIN_FRAMETIME_US as int <= u64::MAX ==> w - l
            == MIN_FRAMETIME_US),
        frame_wake(last, now) matches Some(w) ==> last matches Some(l) && w >= l,
{
}

impl Default for PerfState {
    fn default() -> (r: Self)
        ensures
            !r.open,
            r.last_second.is_none(),
            r.fps_history@.len() == 0,
            r.min_fps == usize::MAX,
            r.max_fps == 0,
            r.frames == 0,
            r.last_frame.is_none(),
    {
        PerfState {
            open: false,
            last_second: None,
            fps_history: Vec::new(),
            min_fps: usize::MAX,
            max_fps: 0,
            frames: 0,
            last_frame: None,
        }
    }
}

fn elapsed_us(later: u64, earlier: u64) -> (r: u64)
    ensures
        r == elapsed(later, earlier),
{
    if later >= earlier {
        later - earlier
    } else {
        0
    }
}

fn add_us(t: u64, d: u64) -> (r: u64)
    ensures
        r == later_by(t, d),
{
    if t > u64::MAX - d {
        u64::MAX
    } else {
        t + d
    }
}

/// Counts a displayed frame at instant `now`; once a second has passed
/// since the window began, the window's count goes to the history and a new
/// window begins.
pub fn record_frame(perf: &mut PerfState, now: u64)
    ensures
        final(perf).open == old(perf).open,
        final(perf).min_fps == old(perf).min_fps,
        final(perf).max_fps == old(perf).max_fps,
        final(perf).last_frame == old(perf).last_frame,
        ({
            let counted = if old(perf).frames == usize::MAX {
                usize::MAX
            } else {
                (old(perf).frames + 1) as usize
            };
            match old(perf).last_second {
                None => {
                    &&& final(perf).last_second == Some(now)
                    &&& final(perf).frames == counted
                    &&& final(perf).fps_history@ == old(perf).fps_history@
                },
                Some(start) => if elapsed(now, start) >= SECOND_US {
                    &&& final(perf).last_second == Some(now)
                    &&& final(perf).frames == 0
                    &&& final(perf).fps_history@ == old(perf).fps_history@.push(counted)
                } else {
                    &&& final(perf).last_second == old(perf).last_second
                    &&& final(perf).frames == counted
                    &&& final(perf).fps_history@ == old(perf).fps_history@
                },
            }
        }),
{
    if perf.frames < usize::MAX {
        perf.frames = perf.frames + 1;
    }
    match perf.last_second {
        None => {
            perf.last_second = Some(now);
        },
        Some(start) => {
            if elapsed_us(now, start) >= SECOND_US {
                perf.last_second = Some(now);
                perf.fps_history.push(perf.frames);
                perf.frames = 0;
            }
        },
    }
}

fn history_sum(h: &Vec<usize>) -> (r: u128)
    ensures
        r == seq_sum(h@),
{
    let mut sum: u128 = 0;
    let mut i: usize = 0;
    while i < h.len()
        invariant
            i <= h@.len(),
            sum == seq_sum(h@.take(i as int)),
            sum <= i * usize::MAX,
        decreases h.len() - i,
    {
        assert(h@.take(i as int + 1).drop_last() =~= h@.take(i as int));
        let x = h[i];
        assert(sum + x <= (i + 1) * usize::MAX && (i + 1) * usize::MAX
            <= 0xFFFF_FFFF_FFFF_FFFFint * 0xFFFF_FFFF_FFFF_FFFFint) by (nonlinear_arith)
            requires
                sum <= i * usize::MAX,
                x <= usize::MAX,
                i + 1 <= usize::MAX,
                usize::MAX <= 0xFFFF_FFFF_FFFF_FFFFint,
        ;
        sum = sum + x as u128;
        i += 1;
    }
    assert(h@.take(i as int) =~= h@);
    sum
}

/// Drops the oldest window's count when the history is over the cap, then
/// updates the extremes with the newest count and gives the figures of the
/// statistics panel: newest count, average, minimum and maximum, over the
/// history that remains. Nothing is shown before the first window has
/// finished.
pub fn show(perf: &mut PerfState) -> (r: Option<FpsSummary>)
    ensures
        final(perf).fps_history@ == trimmed_history(old(perf).fps_history@),
        final(perf).last_second == old(perf).last_second,
        final(perf).frames == old(perf).frames,
        final(perf).last_frame == old(perf).last_frame,
        final(perf).open == old(perf).open,
        old(perf).fps_history@.len() == 0 ==> r.is_none() && final(perf).min_fps
            == old(perf).min_fps && final(perf).max_fps == old(perf).max_fps,
        old(perf).fps_history@.len() > 0 ==> {
            let h = trimmed_history(old(perf).fps_history@);
            let newest = h.last();
            &&& final(perf).min_fps == (if newest < old(perf).min_fps {
                newest
            } else {
                old(perf).min_fps
            })
            &&& final(perf).max_fps == (if newest > old(perf).max_fps {
                newest
            } else {
                old(perf).max_fps
            })
            &&& r == Some(
                FpsSummary {
                    current: newest,
                    average: (seq_sum(h) / h.len() as int) as usize,
                    min: final(perf).min_fps,
                    max: final(perf).max_fps,
                },
            )
        },
{
    if perf.fps_history.len() == 0 {
        return None;
    }
    if perf.fps_history.len() > MAX_FPS_HISTORY {
        perf.fps_history.remove(0);
        assert(perf.fps_history@ =~= old(perf).fps_history@.drop_first());
    }
    let len = perf.fps_history.len();
    let newest = perf.fps_history[len - 1];
    if newest > perf.max_fps {
        perf.max_fps = newest;
    }
    if newest < perf.min_fps {
        perf.min_fps = newest;
    }
    let sum = history_sum(&perf.fps_history);
    proof {
        lemma_sum_bound(perf.fps_history@);
    }
    let average = (sum / len as u128) as usize;
    Some(FpsSummary { current: newest, average, min: perf.min_fps, max: perf.max_fps })
}

proof fn lemma_sum_bound(s: Seq<usize>)
    ensures
        0 <= seq_sum(s) <= s.len() * usize::MAX,
    decreases s.len(),
{
    if s.len() > 0 {
        let n = s.len() as int;
        lemma_sum_bound(s.drop_last());
        assert(seq_sum(s.drop_last()) + s.last() <= n * usize::MAX) by (nonlinear_arith)
            requires
                seq_sum(s.drop_last()) <= (n - 1) * usize::MAX,
                s.last() <= usize::MAX,
        ;
    }
}

/// Paces the display at `now`: a frame that comes sooner than the shortest
/// frame time after the previous one asks for the runner to be held until
/// that time has passed, and the instant to wake it at is returned.
pub fn ratelimit(perf: &mut PerfState, now: u64) -> (r: Option<u64>)
    ensures
        final(perf).last_frame == Some(now),
        final(perf).fps_history@ == old(perf).fps_history@,
        final(perf).last_second == old(perf).last_second,
        final(perf).frames == old(perf).frames,
        final(perf).min_fps == old(perf).min_fps,
        final(perf).max_fps == old(perf).max_fps,
        final(perf).open == old(perf).open,
        r == frame_wake(old(perf).last_frame, now),
{
    let r = match perf.last_frame {
        Some(last) => {
            if elapsed_us(now, last) < MIN_FRAMETIME_US {
                Some(add_us(last, MIN_FRAMETIME_US))
            } else {
                None
            }
        },
        None => None,
    };
    perf.last_frame = Some(now);
    r
}

} // verus!
