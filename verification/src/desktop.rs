use vstd::prelude::*;

verus! {

/// The mouse message of a left button press.
pub const WM_LBUTTONDOWN: u32 = 0x0201;

/// The command that the desktop's list view answers by showing or hiding
/// the desktop icons.
pub const TOGGLE_DESKTOP_ICONS_COMMAND: usize = 0x7402;

/// The list-view message that asks for the number of selected items.
pub const LIST_VIEW_GET_SELECTED_COUNT: u32 = 0x1032;

pub open spec fn nanos_per_millisecond() -> int {
    1_000_000
}

/// Whether the low-level mouse hook looks at an event at all: the hook code
/// allows processing, the desktop toggler is on, and the event is a left
/// button press. Every other event is passed on untouched.
pub fn hook_inspects_event(code: i32, desktop_toggler_enabled: bool, message: usize) -> (inspect: bool)
    ensures
        inspect == (code >= 0 && desktop_toggler_enabled && message as u32 == WM_LBUTTONDOWN),
{
    if code < 0 {
        return false;
    }
    if !desktop_toggler_enabled {
        return false;
    }
    message as u32 == WM_LBUTTONDOWN
}

/// The window classes that make up the desktop background.
pub open spec fn is_desktop_class(class_name: Seq<char>) -> bool {
    ||| class_name == "SysListView32"@
    ||| class_name == "WorkerW"@
    ||| class_name == "Progman"@
    ||| class_name == "SHELLDLL_DefView"@
}

/// What a left button press on some window means for the icon toggler.
#[derive(Clone, Copy, Debug, PartialEq, Eq, Structural)]
pub enum ClickVerdict {
    /// Not the second press of a double click on the desktop.
    NoDoubleClick,
    /// A double click on the desktop background: toggle the icons.
    ToggleIcons,
    /// A double click on the desktop's icon list: toggle the icons only when
    /// no icon is selected.
    ToggleIconsIfNoneSelected,
}

/// Remembers the last press on the desktop, to recognise double clicks.
///
/// Times are readings of a monotonic clock in nanoseconds.
#[derive(Clone, Copy, Debug, PartialEq, Eq, Structural)]
pub struct DoubleClickTracker {
    pub last_click: Option<u64>,
}

/// Milliseconds from `earlier` to `now`, rounded down, zero when the clock
/// reads earlier than `earlier`.
pub open spec fn elapsed_millis(now: u64, earlier: u64) -> int {
    if now >= earlier {
        (now - earlier) / nanos_per_millisecond()
    } else {
        0
    }
}

/// One left button press: on a desktop window, within the double-click time
/// of the previous press there, it completes a double click and forgets the
/// previous press; otherwise it is remembered. A press elsewhere forgets the
/// previous one.
pub open spec fn press_result(
    last_click: Option<u64>,
    class_name: Seq<char>,
    now: u64,
    double_click_ms: u32,
) -> (Option<u64>, ClickVerdict) {
    if !is_desktop_class(class_name) {
        (None, ClickVerdict::NoDoubleClick)
    } else {
        match last_click {
            Some(last) => if elapsed_millis(now, last) < double_click_ms {
                (
                    None,
                    if class_name == "SysListView32"@ {
                        ClickVerdict::ToggleIconsIfNoneSelected
                    } else {
                        ClickVerdict::ToggleIcons
                    },
                )
            } else {
                (Some(now), ClickVerdict::NoDoubleClick)
            },
            None => (Some(now), ClickVerdict::NoDoubleClick),
        }
    }
}

impl DoubleClickTracker {
    /// A tracker that remembers no press.
    pub fn new() -> (t: Self)
        ensures
            t.last_click is None,
    {
        DoubleClickTracker { last_click: None }
    }

    /// Takes a left button press on a window of class `class_name` at `now`,
    /// with the system's double-click time `double_click_ms`.
    pub fn left_button_down(&mut self, class_name: &String, now: u64, double_click_ms: u32) -> (v: ClickVerdict)
        ensures
            (final(self).last_click, v) == press_result(old(self).last_click, class_name@, now, double_click_ms),
    {
        let list_view = *class_name == String::from_str("SysListView32");
        let on_desktop = list_view || *class_name == String::from_str("WorkerW") || *class_name
            == String::from_str("Progman") || *class_name == String::from_str("SHELLDLL_DefView");
        if !on_desktop {
            self.last_click = None;
            return ClickVerdict::NoDoubleClick;
        }
        if let Some(last) = self.last_click {
            let elapsed: u64 = if now >= last {
                now - last
            } else {
                0
            };
            if elapsed / 1_000_000 < double_click_ms as u64 {
                self.last_click = None;
                return if list_view {
                    ClickVerdict::ToggleIconsIfNoneSelected
                } else {
                    ClickVerdict::ToggleIcons
                };
            }
        }
        self.last_click = Some(now);
        ClickVerdict::NoDoubleClick
    }
}

/// Whether a verdict toggles the icons, given the number of selected icons
/// that the list view reported (asked only for a double click on the list).
pub fn double_click_toggles(verdict: ClickVerdict, selected_count: isize) -> (toggle: bool)
    ensures
        toggle == match verdict {
            ClickVerdict::NoDoubleClick => false,
            ClickVerdict::ToggleIcons => true,
            ClickVerdict::ToggleIconsIfNoneSelected => selected_count == 0,
        },
{
    match verdict {
        ClickVerdict::NoDoubleClick => false,
        ClickVerdict::ToggleIcons => true,
        ClickVerdict::ToggleIconsIfNoneSelected => selected_count == 0,
    }
}

/// Two presses on the desktop within the double-click time make a double
/// click, and the press after a double click never completes another one:
/// a triple click toggles the icons once.
pub proof fn lemma_double_click(
    last_click: Option<u64>,
    class_name: Seq<char>,
    first: u64,
    second: u64,
    double_click_ms: u32,
)
    requires
        is_desktop_class(class_name),
        first <= second,
        (second - first) / nanos_per_millisecond() < double_click_ms,
    ensures
        ({
            let (after_first, v1) = press_result(last_click, class_name, first, double_click_ms);
            &&& v1 == ClickVerdict::NoDoubleClick ==> press_result(after_first, class_name, second, double_click_ms).1
                != ClickVerdict::NoDoubleClick
            &&& v1 != ClickVerdict::NoDoubleClick ==> after_first is None
        }),
{
}

/// After a double click the tracker forgets the press, so the next press is
/// never the end of a double click; a press outside the desktop also forgets.
pub proof fn lemma_click_resets(
    last_click: Option<u64>,
    class_name: Seq<char>,
    now: u64,
    double_click_ms: u32,
    next_class: Seq<char>,
    next: u64,
)
    ensures
        ({
            let (after, v) = press_result(last_click, class_name, now, double_click_ms);
            &&& v != ClickVerdict::NoDoubleClick ==> press_result(after, next_class, next, double_click_ms).1
                == ClickVerdict::NoDoubleClick
            &&& !is_desktop_class(class_name) ==> after is None && v == ClickVerdict::NoDoubleClick
        }),
{
}

/// A press that comes within the double-click time after a remembered press
/// on the desktop completes a double click and forgets the press: on the
/// icon list ("SysListView32") the icons are toggled only if no icon is
/// selected, on "Progman", "WorkerW" and "SHELLDLL_DefView" they are toggled
/// unconditionally.
pub proof fn lemma_double_click_verdicts(last: u64, now: u64, double_click_ms: u32)
    requires
        last <= now,
        (now - last) / 1_000_000 < double_click_ms,
    ensures
        press_result(Some(last), "SysListView32"@, now, double_click_ms) == (
            None::<u64>,
            ClickVerdict::ToggleIconsIfNoneSelected,
        ),
        press_result(Some(last), "Progman"@, now, double_click_ms) == (None::<u64>, ClickVerdict::ToggleIcons),
        press_result(Some(last), "WorkerW"@, now, double_click_ms) == (None::<u64>, ClickVerdict::ToggleIcons),
        press_result(Some(last), "SHELLDLL_DefView"@, now, double_click_ms) == (
            None::<u64>,
            ClickVerdict::ToggleIcons,
        ),
{
    reveal_strlit("SysListView32");
    reveal_strlit("Progman");
    reveal_strlit("WorkerW");
    reveal_strlit("SHELLDLL_DefView");
    assert("Progman"@ != "SysListView32"@) by {
        assert("Progman"@.len() != "SysListView32"@.len());
    }
    assert("WorkerW"@ != "SysListView32"@) by {
        assert("WorkerW"@.len() != "SysListView32"@.len());
    }
    assert("SHELLDLL_DefView"@ != "SysListView32"@) by {
        assert("SHELLDLL_DefView"@.len() != "SysListView32"@.len());
    }
}

/// A press on the desktop that completes no double click (none remembered,
/// or the remembered one too long ago) is remembered with its time; a press
/// on any other window forgets the remembered press; neither toggles.
pub proof fn lemma_single_press(last_click: Option<u64>, class_name: Seq<char>, now: u64, double_click_ms: u32)
    ensures
        ({
            let (after, v) = press_result(last_click, class_name, now, double_click_ms);
            &&& !is_desktop_class(class_name) ==> after is None && v == ClickVerdict::NoDoubleClick
            &&& (is_desktop_class(class_name) && (last_click matches Some(l) ==> (now >= l && (now - l)
                / 1_000_000 >= double_click_ms))) ==> after == Some(now) && v == ClickVerdict::NoDoubleClick
        }),
{
}

/// The desktop consists of exactly the windows of classes "SysListView32",
/// "WorkerW", "Progman" and "SHELLDLL_DefView": a first press on one of them
/// is remembered with its time, and a press on a window of any other class
/// forgets the remembered press.
pub proof fn lemma_desktop_classes(last_click: Option<u64>, class_name: Seq<char>, now: u64, double_click_ms: u32)
    ensures
        press_result(None, "SysListView32"@, now, double_click_ms) == (Some(now), ClickVerdict::NoDoubleClick),
        press_result(None, "WorkerW"@, now, double_click_ms) == (Some(now), ClickVerdict::NoDoubleClick),
        press_result(None, "Progman"@, now, double_click_ms) == (Some(now), ClickVerdict::NoDoubleClick),
        press_result(None, "SHELLDLL_DefView"@, now, double_click_ms) == (Some(now), ClickVerdict::NoDoubleClick),
        (class_name != "SysListView32"@ && class_name != "WorkerW"@ && class_name != "Progman"@ && class_name
            != "SHELLDLL_DefView"@) ==> press_result(last_click, class_name, now, double_click_ms) == (
            None::<u64>,
            ClickVerdict::NoDoubleClick,
        ),
{
}

/// Whether a run of presses, each given as (window class, clock reading),
/// lies wholly on the desktop and follows quickly on `last_click`: each press
/// comes, on the clock, no earlier than the one before and within the
/// double-click time of it.
pub open spec fn quick_desktop_presses(
    last_click: Option<u64>,
    presses: Seq<(Seq<char>, u64)>,
    double_click_ms: u32,
) -> bool {
    &&& forall|i: int| 0 <= i < presses.len() ==> is_desktop_class(#[trigger] presses[i].0)
    &&& forall|i: int|
        0 <= i < presses.len() - 1 ==> presses[i].1 <= #[trigger] presses[i + 1].1 && elapsed_millis(
            presses[i + 1].1,
            presses[i].1,
        ) < double_click_ms
    &&& (presses.len() > 0 && last_click is Some) ==> last_click->0 <= presses[0].1 && elapsed_millis(
        presses[0].1,
        last_click->0,
    ) < double_click_ms
}

/// How many presses of a run complete a double click.
pub open spec fn double_clicks_in_run(
    last_click: Option<u64>,
    presses: Seq<(Seq<char>, u64)>,
    double_click_ms: u32,
) -> int
    decreases presses.len(),
{
    if presses.len() == 0 {
        0
    } else {
        let (after, v) = press_result(last_click, presses[0].0, presses[0].1, double_click_ms);
        (if v == ClickVerdict::NoDoubleClick {
            0int
        } else {
            1int
        }) + double_clicks_in_run(after, presses.drop_first(), double_click_ms)
    }
}

/// Quick presses on the desktop pair up, whichever desktop windows they land
/// on: starting from no remembered press, n presses, each within the
/// double-click time of the one before, complete n / 2 double clicks (a
/// triple click toggles the icons once, a quadruple click twice); starting
/// from a remembered press, the first one completes a pair with it.
pub proof fn lemma_quick_presses_pair_up(
    last_click: Option<u64>,
    presses: Seq<(Seq<char>, u64)>,
    double_click_ms: u32,
)
    requires
        quick_desktop_presses(last_click, presses, double_click_ms),
    ensures
        double_clicks_in_run(last_click, presses, double_click_ms) == if last_click is None {
            presses.len() / 2
        } else {
            (presses.len() + 1) / 2
        },
    decreases presses.len(),
{
    if presses.len() > 0 {
        assert(is_desktop_class(presses[0].0));
        let (after, v) = press_result(last_click, presses[0].0, presses[0].1, double_click_ms);
        let rest = presses.drop_first();
        assert forall|i: int| 0 <= i < rest.len() implies is_desktop_class(#[trigger] rest[i].0) by {
            assert(rest[i] == presses[i + 1]);
        }
        assert forall|i: int| 0 <= i < rest.len() - 1 implies rest[i].1 <= #[trigger] rest[i + 1].1
            && elapsed_millis(rest[i + 1].1, rest[i].1) < double_click_ms by {
            assert(rest[i] == presses[i + 1]);
            assert(rest[i + 1] == presses[i + 2]);
        }
        if rest.len() > 0 {
            assert(rest[0] == presses[1]);
            assert(presses[0].1 <= presses[1].1);
        }
        lemma_quick_presses_pair_up(after, rest, double_click_ms);
    }
}

/// The search for the desktop's icon list: first under the `Progman` window,
/// then under each top-level `WorkerW` window in turn.
#[derive(Clone, Copy, Debug, PartialEq, Eq, Structural)]
pub enum IconSearch {
    /// Look up the top-level window of class `Progman`.
    FindProgman,
    /// Look up the first child of class `SHELLDLL_DefView` under `parent`;
    /// `in_worker` tells whether `parent` is a `WorkerW` window.
    FindView { parent: isize, in_worker: bool },
    /// Look up the next top-level window of class `WorkerW` after `after`
    /// (0: from the first).
    FindWorker { after: isize },
    /// The icon list was found: send it the toggle command.
    Found { view: isize },
    /// No icon list exists.
    NotFound,
}

/// The next step of the search, given the window handle (0 for none) that
/// the lookup of the current step returned.
pub open spec fn search_step(step: IconSearch, window: isize) -> IconSearch {
    match step {
        IconSearch::FindProgman => IconSearch::FindView { parent: window, in_worker: false },
        IconSearch::FindView { parent, in_worker } => if window != 0 {
            IconSearch::Found { view: window }
        } else if in_worker {
            IconSearch::FindWorker { after: parent }
        } else {
            IconSearch::FindWorker { after: 0 }
        },
        IconSearch::FindWorker { after } => if window == 0 {
            IconSearch::NotFound
        } else {
            IconSearch::FindView { parent: window, in_worker: true }
        },
        IconSearch::Found { view } => IconSearch::Found { view },
        IconSearch::NotFound => IconSearch::NotFound,
    }
}

impl IconSearch {
    /// Where the search begins.
    pub fn begin() -> (s: Self)
        ensures
            s == IconSearch::FindProgman,
    {
        IconSearch::FindProgman
    }

    /// Whether the search has ended.
    pub fn is_finished(&self) -> (done: bool)
        ensures
            done == (*self is Found || *self is NotFound),
    {
        match self {
            IconSearch::Found { .. } | IconSearch::NotFound => true,
            _ => false,
        }
    }

    /// Advances the search with the handle returned by the current lookup.
    pub fn next(self, window: isize) -> (s: Self)
        ensures
            s == search_step(self, window),
    {
        match self {
            IconSearch::FindProgman => IconSearch::FindView { parent: window, in_worker: false },
            IconSearch::FindView { parent, in_worker } => if window != 0 {
                IconSearch::Found { view: window }
            } else if in_worker {
                IconSearch::FindWorker { after: parent }
            } else {
                IconSearch::FindWorker { after: 0 }
            },
            IconSearch::FindWorker { after } => if window == 0 {
                IconSearch::NotFound
            } else {
                IconSearch::FindView { parent: window, in_worker: true }
            },
            IconSearch::Found { view } => IconSearch::Found { view },
            IconSearch::NotFound => IconSearch::NotFound,
        }
    }
}

/// The desktop's windows as the lookups see them: the `Progman` window, the
/// `SHELLDLL_DefView` child under it (0 when it has none), the top-level
/// `WorkerW` windows in the order the system returns them, and the
/// `SHELLDLL_DefView` child under each of them (0 when it has none).
pub ghost struct DesktopWindows {
    pub progman: isize,
    pub progman_view: isize,
    pub workers: Seq<isize>,
    pub worker_views: Seq<isize>,
}

/// Whether the model is consistent: one view entry per worker, and the
/// workers are distinct non-null windows.
pub open spec fn desktop_well_formed(d: DesktopWindows) -> bool {
    &&& d.worker_views.len() == d.workers.len()
    &&& forall|i: int| 0 <= i < d.workers.len() ==> #[trigger] d.workers[i] != 0
    &&& forall|i: int, j: int|
        0 <= i < d.workers.len() && 0 <= j < d.workers.len() && i != j ==> d.workers[i] != d.workers[j]
}

/// The position of worker window `w` in the system's order.
pub open spec fn worker_index(d: DesktopWindows, w: isize) -> int {
    choose|i: int| 0 <= i < d.workers.len() && d.workers[i] == w
}

/// The first `WorkerW` window after `after` (the first of all when `after`
/// is 0), or 0 when there is none.
pub open spec fn next_worker(d: DesktopWindows, after: isize) -> isize {
    if after == 0 {
        if d.workers.len() > 0 {
            d.workers[0]
        } else {
            0
        }
    } else {
        let i = worker_index(d, after);
        if 0 <= i < d.workers.len() && d.workers[i] == after && i + 1 < d.workers.len() {
            d.workers[i + 1]
        } else {
            0
        }
    }
}

/// What the system answers to the lookup of a search step.
pub open spec fn lookup_answer(d: DesktopWindows, step: IconSearch) -> isize {
    match step {
        IconSearch::FindProgman => d.progman,
        IconSearch::FindView { parent, in_worker } => if !in_worker {
            d.progman_view
        } else {
            let i = worker_index(d, parent);
            if 0 <= i < d.workers.len() && d.workers[i] == parent {
                d.worker_views[i]
            } else {
                0
            }
        },
        IconSearch::FindWorker { after } => next_worker(d, after),
        _ => 0,
    }
}

/// The search run for at most `fuel` lookups against the desktop `d`.
pub open spec fn search_run(d: DesktopWindows, step: IconSearch, fuel: nat) -> IconSearch
    decreases fuel,
{
    if fuel == 0 || step is Found || step is NotFound {
        step
    } else {
        search_run(d, search_step(step, lookup_answer(d, step)), (fuel - 1) as nat)
    }
}

/// The first `WorkerW` window from position `k` on that has a view, by its view.
pub open spec fn first_worker_view(d: DesktopWindows, k: int) -> IconSearch
    decreases d.workers.len() - k,
{
    if k < 0 || k >= d.workers.len() {
        IconSearch::NotFound
    } else if d.worker_views[k] != 0 {
        IconSearch::Found { view: d.worker_views[k] }
    } else {
        first_worker_view(d, k + 1)
    }
}

/// Where the whole search ends: the view under `Progman` when there is one,
/// otherwise the view under the first `WorkerW` window, in the system's
/// order, that has one, otherwise nowhere.
pub open spec fn search_outcome(d: DesktopWindows) -> IconSearch {
    if d.progman_view != 0 {
        IconSearch::Found { view: d.progman_view }
    } else {
        first_worker_view(d, 0)
    }
}

proof fn lemma_worker_index(d: DesktopWindows, k: int)
    requires
        desktop_well_formed(d),
        0 <= k < d.workers.len(),
    ensures
        worker_index(d, d.workers[k]) == k,
{
    let w = d.workers[k];
    assert(exists|i: int| 0 <= i < d.workers.len() && d.workers[i] == w);
    let i = worker_index(d, w);
    assert(0 <= i < d.workers.len() && d.workers[i] == w);
}

/// From the lookup of the worker after position `k - 1` (from the first when
/// `k` is 0), the search ends at the first worker from position `k` on that
/// has a view.
proof fn lemma_worker_walk(d: DesktopWindows, k: int, fuel: nat)
    requires
        desktop_well_formed(d),
        0 <= k <= d.workers.len(),
        fuel >= 2 * (d.workers.len() - k) + 1,
    ensures
        search_run(
            d,
            IconSearch::FindWorker { after: if k == 0 { 0 } else { d.workers[k - 1] } },
            fuel,
        ) == first_worker_view(d, k),
    decreases d.workers.len() - k,
{
    let after: isize = if k == 0 { 0 } else { d.workers[k - 1] };
    if k > 0 {
        lemma_worker_index(d, k - 1);
    }
    let step = IconSearch::FindWorker { after };
    let f1 = (fuel - 1) as nat;
    assert(lookup_answer(d, step) == if k < d.workers.len() { d.workers[k] } else { 0 });
    if k == d.workers.len() {
        assert(search_step(step, 0) == IconSearch::NotFound);
        assert(search_run(d, step, fuel) == search_run(d, IconSearch::NotFound, f1));
        assert(search_run(d, IconSearch::NotFound, f1) == IconSearch::NotFound);
    } else {
        let w = d.workers[k];
        let view_step = IconSearch::FindView { parent: w, in_worker: true };
        assert(search_step(step, w) == view_step);
        assert(search_run(d, step, fuel) == search_run(d, view_step, f1));
        lemma_worker_index(d, k);
        assert(lookup_answer(d, view_step) == d.worker_views[k]);
        if d.worker_views[k] != 0 {
            let found = IconSearch::Found { view: d.worker_views[k] };
            assert(search_step(view_step, d.worker_views[k]) == found);
            assert(search_run(d, view_step, f1) == search_run(d, found, (f1 - 1) as nat));
            assert(search_run(d, found, (f1 - 1) as nat) == found);
        } else {
            let next = IconSearch::FindWorker { after: w };
            assert(search_step(view_step, 0) == next);
            assert(search_run(d, view_step, f1) == search_run(d, next, (f1 - 1) as nat));
            assert(first_worker_view(d, k) == first_worker_view(d, k + 1));
            assert(d.workers[(k + 1) - 1] == w);
            lemma_worker_walk(d, k + 1, (f1 - 1) as nat);
        }
    }
}

/// Run against a consistent desktop with enough lookups, the search ends at
/// the view under `Progman` when there is one, otherwise at the view under
/// the first `WorkerW` window, in the system's order, that has one, and
/// otherwise finds nothing.
pub proof fn lemma_search_outcome(d: DesktopWindows, fuel: nat)
    requires
        desktop_well_formed(d),
        fuel >= 2 * d.workers.len() + 3,
    ensures
        search_run(d, IconSearch::FindProgman, fuel) == search_outcome(d),
{
    let s1 = IconSearch::FindView { parent: d.progman, in_worker: false };
    assert(search_step(IconSearch::FindProgman, d.progman) == s1);
    let f1 = (fuel - 1) as nat;
    assert(search_run(d, IconSearch::FindProgman, fuel) == search_run(d, s1, f1));
    assert(lookup_answer(d, s1) == d.progman_view);
    if d.progman_view != 0 {
        let found = IconSearch::Found { view: d.progman_view };
        assert(search_step(s1, d.progman_view) == found);
        assert(search_run(d, s1, f1) == search_run(d, found, (f1 - 1) as nat));
        assert(search_run(d, found, (f1 - 1) as nat) == found);
    } else {
        let w0 = IconSearch::FindWorker { after: 0 };
        assert(search_step(s1, 0) == w0);
        assert(search_run(d, s1, f1) == search_run(d, w0, (f1 - 1) as nat));
        lemma_worker_walk(d, 0, (f1 - 1) as nat);
    }
}

/// The search ends with a window only when a view lookup returned that
/// (non-null) window, and it walks the `WorkerW` windows in the order the
/// system returns them, each after the previous one.
pub proof fn lemma_search_found(step: IconSearch, window: isize)
    ensures
        search_step(step, window) is Found && !(step is Found) ==> step is FindView && window != 0
            && search_step(step, window) == (IconSearch::Found { view: window }),
        step is FindWorker && window != 0 ==> search_step(step, window) == (IconSearch::FindView {
            parent: window,
            in_worker: true,
        }),
        (step matches IconSearch::FindView { parent, in_worker } && in_worker && window == 0)
            ==> search_step(step, window) == (IconSearch::FindWorker { after: step->parent }),
{
}

} // verus!
