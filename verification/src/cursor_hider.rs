use vstd::prelude::*;

verus! {

/// How often the hider samples the cursor position, in milliseconds.
pub const POLL_INTERVAL_MS: u64 = 100;

/// A cursor position on the screen.
#[derive(Clone, Copy, Debug, PartialEq, Eq, Structural)]
pub struct CursorPoint {
    pub x: i32,
    pub y: i32,
}

/// The state the cursor hider keeps between two samples.
///
/// Times are readings of a monotonic clock in nanoseconds.
#[derive(Clone, Copy, Debug, PartialEq, Eq, Structural)]
pub struct HiderState {
    /// When the cursor last moved (or when the hider started).
    pub last_activity: u64,
    /// Whether the hider has hidden the cursor and not shown it since.
    pub cursor_hidden: bool,
    /// Where the cursor was last seen.
    pub last_position: CursorPoint,
}

/// What one sample asks of the display: show the cursor, hide it, or both
/// (in that order).
#[derive(Clone, Copy, Debug, PartialEq, Eq, Structural)]
pub struct HiderTick {
    pub show: bool,
    pub hide: bool,
}

/// One sample of the clock and of the cursor position; the position is
/// `None` when it could not be read.
#[derive(Clone, Copy, Debug, PartialEq, Eq, Structural)]
pub struct HiderSample {
    pub now: u64,
    pub position: Option<CursorPoint>,
}

pub open spec fn nanos_per_second() -> int {
    1_000_000_000
}

/// Time from `earlier` to `now`, zero when the clock reads earlier than `earlier`.
pub open spec fn elapsed_since(now: u64, earlier: u64) -> int {
    if now >= earlier {
        now - earlier
    } else {
        0
    }
}

/// The state in which the hider begins: visible cursor, activity now, and the
/// position read at start (the origin when it could not be read).
pub open spec fn start_state(now: u64, position: Option<CursorPoint>) -> HiderState {
    HiderState {
        last_activity: now,
        cursor_hidden: false,
        last_position: match position {
            Some(p) => p,
            None => CursorPoint { x: 0, y: 0 },
        },
    }
}

/// Whether a sample shows the cursor at another place than last seen.
pub open spec fn cursor_moved(s: HiderState, position: Option<CursorPoint>) -> bool {
    match position {
        Some(p) => p != s.last_position,
        None => false,
    }
}

/// The state once a movement (if any) has been taken into account.
pub open spec fn after_movement(s: HiderState, now: u64, position: Option<CursorPoint>) -> HiderState {
    match position {
        Some(p) => if p != s.last_position {
            HiderState { last_activity: now, cursor_hidden: false, last_position: p }
        } else {
            s
        },
        None => s,
    }
}

/// Whether the cursor has been still for at least the timeout.
pub open spec fn timed_out(s: HiderState, timeout_seconds: u64, now: u64) -> bool {
    elapsed_since(now, s.last_activity) >= timeout_seconds * nanos_per_second()
}

/// One sample of the hider: a movement shows a hidden cursor and restarts the
/// inactivity period; then a visible cursor still for the timeout is hidden.
pub open spec fn tick_result(
    s: HiderState,
    timeout_seconds: u64,
    now: u64,
    position: Option<CursorPoint>,
) -> (HiderState, HiderTick) {
    let m = after_movement(s, now, position);
    let show = cursor_moved(s, position) && s.cursor_hidden;
    let hide = !m.cursor_hidden && timed_out(m, timeout_seconds, now);
    (
        HiderState {
            last_activity: m.last_activity,
            cursor_hidden: m.cursor_hidden || hide,
            last_position: m.last_position,
        },
        HiderTick { show, hide },
    )
}

/// The state after a run of samples.
pub open spec fn run_ticks(s: HiderState, timeout_seconds: u64, samples: Seq<HiderSample>) -> HiderState
    decreases samples.len(),
{
    if samples.len() == 0 {
        s
    } else {
        run_ticks(
            tick_result(s, timeout_seconds, samples[0].now, samples[0].position).0,
            timeout_seconds,
            samples.drop_first(),
        )
    }
}

/// What one tick does to the number of times the cursor is hidden: +1 for a
/// hide, -1 for a show.
pub open spec fn tick_delta(t: HiderTick) -> int {
    (if t.hide { 1int } else { 0int }) - (if t.show { 1int } else { 0int })
}

/// The net number of hides over a run of samples.
pub open spec fn net_hides(s: HiderState, timeout_seconds: u64, samples: Seq<HiderSample>) -> int
    decreases samples.len(),
{
    if samples.len() == 0 {
        0
    } else {
        let r = tick_result(s, timeout_seconds, samples[0].now, samples[0].position);
        tick_delta(r.1) + net_hides(r.0, timeout_seconds, samples.drop_first())
    }
}

pub open spec fn hidden_count(hidden: bool) -> int {
    if hidden {
        1
    } else {
        0
    }
}

impl HiderState {
    /// The state of a hider started at `now` with the cursor at `position`.
    pub fn start(now: u64, position: Option<CursorPoint>) -> (s: Self)
        ensures
            s == start_state(now, position),
    {
        let last_position = match position {
            Some(p) => p,
            None => CursorPoint { x: 0, y: 0 },
        };
        HiderState { last_activity: now, cursor_hidden: false, last_position }
    }

    /// Takes one sample into account and says what to do with the cursor.
    pub fn tick(&mut self, timeout_seconds: u64, now: u64, position: Option<CursorPoint>) -> (t: HiderTick)
        ensures
            (*final(self), t) == tick_result(*old(self), timeout_seconds, now, position),
    {
        let mut show = false;
        if let Some(p) = position {
            if p.x != self.last_position.x || p.y != self.last_position.y {
                show = self.cursor_hidden;
                self.cursor_hidden = false;
                self.last_activity = now;
                self.last_position = p;
            }
        }
        let elapsed: u64 = if now >= self.last_activity {
            now - self.last_activity
        } else {
            0
        };
        let timeout_nanos: u128 = (timeout_seconds as u128) * 1_000_000_000u128;
        let hide = !self.cursor_hidden && (elapsed as u128) >= timeout_nanos;
        if hide {
            self.cursor_hidden = true;
        }
        HiderTick { show, hide }
    }

    /// Whether the cursor has to be shown when the hider stops.
    pub fn show_on_stop(&self) -> (show: bool)
        ensures
            show == self.cursor_hidden,
    {
        self.cursor_hidden
    }
}

/// Whether a call of the system's cursor display counter has reached its
/// goal: below zero when hiding, zero or above when showing.
pub fn cursor_display_settled(hiding: bool, display_count: i32) -> (settled: bool)
    ensures
        settled == if hiding {
            display_count < 0
        } else {
            display_count >= 0
        },
{
    if hiding {
        display_count < 0
    } else {
        display_count >= 0
    }
}

/// A sample never shows a visible cursor nor hides a hidden one; it shows
/// the cursor whenever it moved while hidden; it hides only a cursor that has
/// been still for the whole timeout, and always hides a visible cursor that has.
pub proof fn lemma_tick_rules(s: HiderState, timeout_seconds: u64, now: u64, position: Option<CursorPoint>)
    ensures
        ({
            let (s2, t) = tick_result(s, timeout_seconds, now, position);
            &&& t.show ==> s.cursor_hidden
            &&& t.show <==> (cursor_moved(s, position) && s.cursor_hidden)
            &&& t.hide ==> !after_movement(s, now, position).cursor_hidden
            &&& t.hide ==> elapsed_since(now, s2.last_activity) >= timeout_seconds * nanos_per_second()
            &&& cursor_moved(s, position) ==> s2.last_activity == now
            &&& (!cursor_moved(s, position) && !s.cursor_hidden && timed_out(s, timeout_seconds, now))
                ==> t.hide && s2.cursor_hidden
            &&& (!cursor_moved(s, position) && !timed_out(s, timeout_seconds, now)) ==> s2 == s
        }),
{
}

/// A fresh hider shows the cursor, counts its inactivity from `now`, and
/// remembers the position read at start (the origin when none could be read).
pub proof fn lemma_start_values(now: u64, position: Option<CursorPoint>)
    ensures
        !start_state(now, position).cursor_hidden,
        start_state(now, position).last_activity == now,
        position matches Some(p) ==> start_state(now, position).last_position == p,
        position is None ==> start_state(now, position).last_position.x == 0 && start_state(
            now,
            position,
        ).last_position.y == 0,
{
}

/// A sample at a position that differs from the last one in either
/// coordinate is a movement: it shows the cursor exactly when it was hidden,
/// the new position and the time of the sample become the last position and
/// the last activity, and the cursor is hidden again only with a zero
/// timeout.
pub proof fn lemma_tick_on_movement(s: HiderState, timeout_seconds: u64, now: u64, p: CursorPoint)
    requires
        p.x != s.last_position.x || p.y != s.last_position.y,
    ensures
        ({
            let (s2, t) = tick_result(s, timeout_seconds, now, Some(p));
            &&& t.show == s.cursor_hidden
            &&& t.hide == (timeout_seconds == 0)
            &&& s2.last_position == p
            &&& s2.last_activity == now
            &&& s2.cursor_hidden == (timeout_seconds == 0)
        }),
{
}

/// A sample without movement (the same position, or none read) never shows
/// the cursor and keeps the last position and activity; it hides a visible
/// cursor exactly when at least the timeout has passed on the clock since
/// the last activity (always, with a zero timeout; a clock reading before
/// the last activity counts as no time), and a hidden cursor stays hidden.
pub proof fn lemma_tick_without_movement(
    s: HiderState,
    timeout_seconds: u64,
    now: u64,
    position: Option<CursorPoint>,
)
    requires
        position matches Some(p) ==> p.x == s.last_position.x && p.y == s.last_position.y,
    ensures
        ({
            let (s2, t) = tick_result(s, timeout_seconds, now, position);
            &&& !t.show
            &&& s2.last_position == s.last_position
            &&& s2.last_activity == s.last_activity
            &&& t.hide == (!s.cursor_hidden && (timeout_seconds == 0 || (now >= s.last_activity && now
                - s.last_activity >= timeout_seconds * 1_000_000_000)))
            &&& s2.cursor_hidden == (s.cursor_hidden || t.hide)
        }),
{
    match position {
        Some(p) => {
            assert(p == s.last_position);
        },
        None => {},
    }
    assert(after_movement(s, now, position) == s);
}

/// Over any run of samples the net number of hides equals the change of the
/// hidden flag; so from a fresh start, a run followed by the show that stopping
/// performs leaves the cursor shown exactly as often as it was hidden.
pub proof fn lemma_hider_balanced(s: HiderState, timeout_seconds: u64, samples: Seq<HiderSample>)
    ensures
        net_hides(s, timeout_seconds, samples) == hidden_count(run_ticks(s, timeout_seconds, samples).cursor_hidden)
            - hidden_count(s.cursor_hidden),
    decreases samples.len(),
{
    if samples.len() > 0 {
        let r = tick_result(s, timeout_seconds, samples[0].now, samples[0].position);
        lemma_hider_balanced(r.0, timeout_seconds, samples.drop_first());
    }
}

/// Whether no sample of a run shows the cursor moved from `position`.
pub open spec fn cursor_still(position: CursorPoint, samples: Seq<HiderSample>) -> bool {
    forall|i: int|
        0 <= i < samples.len() ==> match #[trigger] samples[i].position {
            Some(p) => p == position,
            None => true,
        }
}

/// A still run stays still after its first sample: that sample moves
/// neither the last position nor the last activity, and the rest of the run
/// is still at the same position.
pub proof fn lemma_still_after_first(s: HiderState, timeout_seconds: u64, samples: Seq<HiderSample>)
    requires
        cursor_still(s.last_position, samples),
        samples.len() > 0,
    ensures
        ({
            let r = tick_result(s, timeout_seconds, samples[0].now, samples[0].position).0;
            &&& r.last_position == s.last_position
            &&& r.last_activity == s.last_activity
            &&& r.cursor_hidden == (s.cursor_hidden || timed_out(s, timeout_seconds, samples[0].now))
            &&& cursor_still(r.last_position, samples.drop_first())
        }),
{
    let rest = samples.drop_first();
    assert(match samples[0].position {
        Some(p) => p == s.last_position,
        None => true,
    });
    assert forall|i: int| 0 <= i < rest.len() implies match #[trigger] rest[i].position {
        Some(p) => p == s.last_position,
        None => true,
    } by {
        assert(rest[i] == samples[i + 1]);
        assert(match samples[i + 1].position {
            Some(p) => p == s.last_position,
            None => true,
        });
    }
}

/// While the cursor stays still, a run of samples hides it as soon as one
/// sample comes at least the timeout after the last activity, and it stays
/// hidden until the run ends: the cursor is hidden within one sampling
/// interval of the timeout.
pub proof fn lemma_still_cursor_hidden(
    s: HiderState,
    timeout_seconds: u64,
    samples: Seq<HiderSample>,
    k: int,
)
    requires
        cursor_still(s.last_position, samples),
        0 <= k < samples.len(),
        samples[k].now >= s.last_activity + timeout_seconds * nanos_per_second(),
    ensures
        run_ticks(s, timeout_seconds, samples).cursor_hidden,
        run_ticks(s, timeout_seconds, samples).last_activity == s.last_activity,
    decreases samples.len(),
{
    let r = tick_result(s, timeout_seconds, samples[0].now, samples[0].position);
    let rest = samples.drop_first();
    lemma_still_after_first(s, timeout_seconds, samples);
    if k == 0 {
        lemma_still_run_stays_hidden(r.0, timeout_seconds, rest);
    } else {
        assert(rest[k - 1] == samples[k]);
        lemma_still_cursor_hidden(r.0, timeout_seconds, rest, k - 1);
    }
}

/// While the cursor stays still, a hidden cursor stays hidden and the last
/// activity does not change.
pub proof fn lemma_still_run_stays_hidden(s: HiderState, timeout_seconds: u64, samples: Seq<HiderSample>)
    requires
        cursor_still(s.last_position, samples),
        s.cursor_hidden,
    ensures
        run_ticks(s, timeout_seconds, samples).cursor_hidden,
        run_ticks(s, timeout_seconds, samples).last_activity == s.last_activity,
    decreases samples.len(),
{
    if samples.len() > 0 {
        let r = tick_result(s, timeout_seconds, samples[0].now, samples[0].position);
        let rest = samples.drop_first();
        lemma_still_after_first(s, timeout_seconds, samples);
        lemma_still_run_stays_hidden(r.0, timeout_seconds, rest);
    }
}

/// A hider started fresh and stopped after any run of samples has shown the
/// cursor as many times as it hid it.
pub proof fn lemma_hider_restores_cursor(
    now: u64,
    position: Option<CursorPoint>,
    timeout_seconds: u64,
    samples: Seq<HiderSample>,
)
    ensures
        ({
            let s = start_state(now, position);
            let last = run_ticks(s, timeout_seconds, samples);
            net_hides(s, timeout_seconds, samples) - hidden_count(last.cursor_hidden) == 0
        }),
{
    lemma_hider_balanced(start_state(now, position), timeout_seconds, samples);
}

} // verus!
