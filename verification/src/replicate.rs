//! The replication loop's logic: the watermark a cycle starts from, the
//! bounded windows that tile the span up to the frontier, and the cycle's
//! state machine. The outside work — the timer, the HTTP calls, the row
//! store — is driven by a host that performs each action and hands the
//! outcome back as the next event.
use vstd::prelude::*;
use vstd::string::StringExecFns;

use crate::record::CompressedWeb;
use crate::WebStat;
use crate::MAX_WINDOW;

verus! {

/// One bounded range request: `low` inclusive, `high` exclusive.
#[derive(Clone, Copy, Debug)]
pub struct Window {
    pub low: i64,
    pub high: i64,
}

/// Whether a sequence of windows exactly tiles `[lo, hi)`: every window
/// non-empty and no wider than the cap, consecutive windows sharing a
/// bound, the first starting at `lo` and the last ending at `hi`, and no
/// windows at all exactly when the span is empty.
pub open spec fn windows_tile(ws: Seq<Window>, lo: int, hi: int) -> bool {
    &&& (ws.len() == 0 <==> lo >= hi)
    &&& (forall|k: int| 0 <= k < ws.len() ==> (#[trigger] ws[k]).low < ws[k].high)
    &&& (forall|k: int|
        0 <= k < ws.len() ==> (#[trigger] ws[k]).high - ws[k].low <= MAX_WINDOW)
    &&& (ws.len() > 0 ==> ws[0].low == lo && ws[ws.len() - 1].high == hi)
    &&& (forall|k: int| 1 <= k < ws.len() ==> (#[trigger] ws[k]).low == ws[k - 1].high)
}

/// Produces the windows that tile `[watermark + 1, target)`, each at most
/// `MAX_WINDOW` wide, in ascending order with no gaps and no overlaps.
pub fn plan_windows(watermark: i64, target: i64) -> (r: Vec<Window>)
    requires
        watermark < i64::MAX,
    ensures
        windows_tile(r@, watermark + 1, target as int),
{
    let lo: i64 = watermark + 1;
    let mut ws: Vec<Window> = Vec::new();
    let mut cur: i64 = lo;
    #[verifier::loop_isolation(false)]
    while cur < target
        invariant
            cur >= lo,
            ws@.len() == 0 ==> cur == lo,
            ws@.len() > 0 ==> lo < cur <= target && ws@[0].low == lo && ws@[ws@.len()
                - 1].high == cur,
            forall|k: int| 0 <= k < ws@.len() ==> (#[trigger] ws@[k]).low < ws@[k].high,
            forall|k: int|
                0 <= k < ws@.len() ==> (#[trigger] ws@[k]).high - ws@[k].low <= MAX_WINDOW,
            forall|k: int| 1 <= k < ws@.len() ==> (#[trigger] ws@[k]).low == ws@[k - 1].high,
        decreases target - cur,
    {
        let diff: i128 = (target as i128) - (cur as i128);
        let step: i64 = if diff > 1000 {
            1000
        } else {
            diff as i64
        };
        let next: i64 = cur + step;
        ws.push(Window { low: cur, high: next });
        cur = next;
    }
    ws
}

/// Windows of a tiling keep their order: an earlier window ends no later
/// than a later one begins.
pub proof fn lemma_windows_ordered(ws: Seq<Window>, lo: int, hi: int, j: int, k: int)
    requires
        windows_tile(ws, lo, hi),
        0 <= j < k < ws.len(),
    ensures
        ws[j].high <= ws[k].low,
    decreases k - j,
{
    if k == j + 1 {
    } else {
        lemma_windows_ordered(ws, lo, hi, j, k - 1);
    }
}

/// No overlaps: an id inside one window of a tiling lies inside no other.
pub proof fn lemma_windows_no_overlap(ws: Seq<Window>, lo: int, hi: int, j: int, k: int, wid: int)
    requires
        windows_tile(ws, lo, hi),
        0 <= j < ws.len(),
        0 <= k < ws.len(),
        j != k,
        ws[j].low <= wid < ws[j].high,
    ensures
        !(ws[k].low <= wid < ws[k].high),
{
    if j < k {
        lemma_windows_ordered(ws, lo, hi, j, k);
    } else {
        lemma_windows_ordered(ws, lo, hi, k, j);
    }
}

/// No gaps: every id of `[lo, hi)` lies inside some window of a tiling.
pub proof fn lemma_windows_cover(ws: Seq<Window>, lo: int, hi: int, wid: int)
    requires
        windows_tile(ws, lo, hi),
        lo <= wid < hi,
    ensures
        exists|k: int| 0 <= k < ws.len() && (#[trigger] ws[k]).low <= wid < ws[k].high,
    decreases ws.len(),
{
    let n = ws.len() as int;
    if ws[n - 1].low <= wid {
        assert(ws[n - 1].low <= wid < ws[n - 1].high);
    } else {
        let prefix = ws.drop_last();
        let mid = ws[n - 1].low as int;
        if n > 1 {
            lemma_windows_ordered(ws, lo, hi, 0, n - 1);
        }
        assert(windows_tile(prefix, lo, mid)) by {
            assert(forall|k: int| 0 <= k < prefix.len() ==> prefix[k] == ws[k]);
        }
        lemma_windows_cover(prefix, lo, mid, wid);
        let w = choose|k: int|
            0 <= k < prefix.len() && (#[trigger] prefix[k]).low <= wid < prefix[k].high;
        assert(ws[w].low <= wid < ws[w].high);
    }
}

/// The watermark a cycle starts from: the highest stored id, clamped below
/// by the configured floor.
pub open spec fn watermark_from(stored_max: Option<i64>, floor: i64) -> i64 {
    match stored_max {
        Some(m) => if m > floor {
            m
        } else {
            floor
        },
        None => floor,
    }
}

/// Clamps the store's highest id from below by the configured floor.
pub fn effective_watermark(stored_max: Option<i64>, floor: i64) -> (r: i64)
    ensures
        r == watermark_from(stored_max, floor),
{
    match stored_max {
        Some(m) => if m > floor {
            m
        } else {
            floor
        },
        None => floor,
    }
}

/// Where the cycle stands. `Fetching` and `Persisting` carry the cycle's
/// windows and the index of the window in hand.
#[derive(Debug)]
pub enum LoopState {
    Idle,
    Polling,
    Windowing { target: i64 },
    Fetching { windows: Vec<Window>, next: usize },
    Persisting { windows: Vec<Window>, next: usize },
    Stopped { err: String },
}

/// The structural soundness of a state: the window in hand exists.
pub open spec fn state_wf(s: LoopState) -> bool {
    match s {
        LoopState::Fetching { windows, next } => next < windows@.len(),
        LoopState::Persisting { windows, next } => next < windows@.len(),
        _ => true,
    }
}

/// Whether a state is structurally sound, as an executable test: a host
/// can check it before handing the state back to `step`.
pub fn state_is_wf(state: &LoopState) -> (r: bool)
    ensures
        r == state_wf(*state),
{
    match state {
        LoopState::Fetching { windows, next } => *next < windows.len(),
        LoopState::Persisting { windows, next } => *next < windows.len(),
        _ => true,
    }
}

/// What the host reports back: the timer fired, the frontier query ended,
/// the store's maximum id was read, one window's fetch ended, or the
/// fetched records were persisted.
#[derive(Debug)]
#[allow(inconsistent_fields)]
pub enum LoopEvent {
    Tick,
    Frontier { outcome: Result<WebStat, String> },
    StoredMax { max: Option<i64> },
    Fetched { outcome: Result<Vec<CompressedWeb>, String> },
    Persisted,
}

/// What the host is asked to do next.
#[derive(Debug)]
pub enum LoopAction {
    AwaitTick,
    QueryFrontier,
    QueryStoredMax,
    FetchWindow { low: i64, high: i64 },
    PersistRecords { records: Vec<CompressedWeb> },
    Stop { err: String },
}

/// Whether a step ended the loop, whatever the description.
pub open spec fn is_stop(r: (LoopState, LoopAction)) -> bool {
    &&& r.0 matches LoopState::Stopped { .. }
    &&& r.1 matches LoopAction::Stop { .. }
}

/// The transition relation of the cycle. A fetch or frontier failure is
/// fatal to the loop; an event that does not belong to the state stops it
/// too.
pub open spec fn step_rel(
    floor: i64,
    state: LoopState,
    event: LoopEvent,
    r: (LoopState, LoopAction),
) -> bool {
    match (state, event) {
        (LoopState::Idle, LoopEvent::Tick) => r == (
            LoopState::Polling,
            LoopAction::QueryFrontier,
        ),
        (LoopState::Polling, LoopEvent::Frontier { outcome }) => match outcome {
            Ok(stat) => if stat.max_wid == i64::MAX {
                is_stop(r)
            } else {
                r == (
                    LoopState::Windowing { target: (stat.max_wid + 1) as i64 },
                    LoopAction::QueryStoredMax,
                )
            },
            Err(e) => r == (LoopState::Stopped { err: e }, LoopAction::Stop { err: e }),
        },
        (LoopState::Windowing { target }, LoopEvent::StoredMax { max }) => {
            let w = watermark_from(max, floor);
            if w + 1 >= target {
                r == (LoopState::Idle, LoopAction::AwaitTick)
            } else {
                &&& r.0 matches LoopState::Fetching { windows, next }
                &&& next == 0
                &&& windows_tile(windows@, w + 1, target as int)
                &&& r.1 == (LoopAction::FetchWindow {
                    low: windows@[0].low,
                    high: windows@[0].high,
                })
            }
        },
        (LoopState::Fetching { windows, next }, LoopEvent::Fetched { outcome }) => match outcome {
            Ok(records) => r == (
                LoopState::Persisting { windows, next },
                LoopAction::PersistRecords { records },
            ),
            Err(e) => r == (LoopState::Stopped { err: e }, LoopAction::Stop { err: e }),
        },
        (LoopState::Persisting { windows, next }, LoopEvent::Persisted) => {
            if next + 1 < windows@.len() {
                r == (
                    LoopState::Fetching { windows, next: (next + 1) as usize },
                    LoopAction::FetchWindow {
                        low: windows@[next + 1].low,
                        high: windows@[next + 1].high,
                    },
                )
            } else {
                r == (LoopState::Idle, LoopAction::AwaitTick)
            }
        },
        (LoopState::Stopped { err }, _) => r == (
            LoopState::Stopped { err },
            LoopAction::Stop { err },
        ),
        _ => is_stop(r),
    }
}

/// The replication loop's decisions, owning only its configured floor.
#[derive(Debug)]
pub struct Replicator {
    pub floor: i64,
}

impl Replicator {
    /// A replicator whose watermark never falls below `floor`.
    pub fn new(floor: i64) -> (r: Replicator)
        ensures
            r.floor == floor,
    {
        Replicator { floor }
    }

    /// One transition of the cycle: takes the state and the host's event,
    /// returns the next state and what the host is to do.
    pub fn step(&self, state: LoopState, event: LoopEvent) -> (r: (LoopState, LoopAction))
        requires
            state_wf(state),
        ensures
            state_wf(r.0),
            step_rel(self.floor, state, event, r),
    {
        match (state, event) {
            (LoopState::Idle, LoopEvent::Tick) => (LoopState::Polling, LoopAction::QueryFrontier),
            (LoopState::Polling, LoopEvent::Frontier { outcome }) => match outcome {
                Ok(stat) => {
                    if stat.max_wid == i64::MAX {
                        stopped(String::from_str("frontier max_wid leaves no room to advance"))
                    } else {
                        (
                            LoopState::Windowing { target: stat.max_wid + 1 },
                            LoopAction::QueryStoredMax,
                        )
                    }
                },
                Err(e) => stopped(e),
            },
            (LoopState::Windowing { target }, LoopEvent::StoredMax { max }) => {
                let w = effective_watermark(max, self.floor);
                if w >= target {
                    (LoopState::Idle, LoopAction::AwaitTick)
                } else {
                    let ws = plan_windows(w, target);
                    if ws.len() == 0 {
                        (LoopState::Idle, LoopAction::AwaitTick)
                    } else {
                        let low = ws[0].low;
                        let high = ws[0].high;
                        (
                            LoopState::Fetching { windows: ws, next: 0 },
                            LoopAction::FetchWindow { low, high },
                        )
                    }
                }
            },
            (LoopState::Fetching { windows, next }, LoopEvent::Fetched { outcome }) => match outcome {
                Ok(records) => (
                    LoopState::Persisting { windows, next },
                    LoopAction::PersistRecords { records },
                ),
                Err(e) => stopped(e),
            },
            (LoopState::Persisting { windows, next }, LoopEvent::Persisted) => {
                let count = windows.len();
                if next + 1 < count {
                    let low = windows[next + 1].low;
                    let high = windows[next + 1].high;
                    (
                        LoopState::Fetching { windows, next: next + 1 },
                        LoopAction::FetchWindow { low, high },
                    )
                } else {
                    (LoopState::Idle, LoopAction::AwaitTick)
                }
            },
            (LoopState::Stopped { err }, _) => {
                let copy = err.clone();
                (LoopState::Stopped { err }, LoopAction::Stop { err: copy })
            },
            (_, _) => stopped(
                String::from_str("replication loop: event does not belong to the state"),
            ),
        }
    }
}

fn stopped(err: String) -> (r: (LoopState, LoopAction))
    ensures
        r == (LoopState::Stopped { err }, LoopAction::Stop { err }),
{
    let copy = err.clone();
    (LoopState::Stopped { err }, LoopAction::Stop { err: copy })
}

} // verus!
