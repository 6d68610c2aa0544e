//! What every run plan satisfies: grid clicks in input order, how many home
//! clicks are made, and how long the run waits in all.
use vstd::prelude::*;
use crate::mouse::{
    click_spec, clicks_between, gap_spec, grid_steps_spec, home_click_spec, point_step_spec,
    run_spec, start_spec, end_spec, Action, DevicePoint, HomeClickOpts, MouseButton, MouseClickOpts,
};

verus! {

/// The number of cursor moves in a sequence of events.
pub open spec fn move_count(s: Seq<Action>) -> nat
    decreases s.len(),
{
    if s.len() == 0 {
        0
    } else {
        move_count(s.drop_last()) + if s.last() is MoveTo {
            1nat
        } else {
            0nat
        }
    }
}

/// The milliseconds waited over a sequence of events, button holds included.
pub open spec fn wait_total(s: Seq<Action>) -> nat
    decreases s.len(),
{
    if s.len() == 0 {
        0
    } else {
        wait_total(s.drop_last()) + match s.last() {
            Action::Wait(ms) => ms as nat,
            _ => 0nat,
        }
    }
}

/// The number of gaps among the first `k` of `n` grid points: one after each
/// point but the last of the run.
pub open spec fn gaps(k: nat, n: nat) -> nat {
    if k == 0 {
        0
    } else if k < n {
        k
    } else {
        (k - 1) as nat
    }
}

/// How many home clicks a run over `n` grid points makes.
pub open spec fn home_click_count(n: nat, home: Option<DevicePoint>, opts: HomeClickOpts) -> nat {
    if home is Some {
        (if opts.click_at_start {
            1nat
        } else {
            0nat
        }) + (if opts.click_in_between {
            gaps(n, n)
        } else {
            0nat
        }) + (if opts.click_at_end {
            1nat
        } else {
            0nat
        })
    } else {
        0
    }
}

/// Where the click of grid point `i` starts in the run.
pub open spec fn grid_click_offset(
    points: Seq<DevicePoint>,
    i: int,
    home: Option<DevicePoint>,
    grid: MouseClickOpts,
    opts: HomeClickOpts,
) -> int {
    1 + start_spec(points.len(), home, grid, opts).len() + grid_steps_spec(
        points,
        i as nat,
        home,
        grid,
        opts,
    ).len() as int
}

proof fn lemma_counts_add(a: Seq<Action>, b: Seq<Action>)
    ensures
        move_count(a + b) == move_count(a) + move_count(b),
        wait_total(a + b) == wait_total(a) + wait_total(b),
    decreases b.len(),
{
    if b.len() == 0 {
        assert(a + b =~= a);
    } else {
        assert((a + b).drop_last() =~= a + b.drop_last());
        lemma_counts_add(a, b.drop_last());
    }
}

proof fn lemma_counts_one(x: Action)
    ensures
        move_count(seq![x]) == (if x is MoveTo {
            1nat
        } else {
            0nat
        }),
        wait_total(seq![x]) == match x {
            Action::Wait(ms) => ms as nat,
            _ => 0nat,
        },
{
    let s = seq![x];
    assert(s.drop_last() =~= Seq::<Action>::empty());
    assert(s.last() == x);
    assert(move_count(s.drop_last()) == 0);
    assert(wait_total(s.drop_last()) == 0);
}

proof fn lemma_click_counts(p: DevicePoint, b: MouseButton, d: u64)
    ensures
        move_count(click_spec(p, b, d)) == 1,
        wait_total(click_spec(p, b, d)) == d as nat,
{
    let m = Action::MoveTo(p);
    let pr = Action::Press(b);
    let w = Action::Wait(d);
    let r = Action::Release(b);
    assert(click_spec(p, b, d) =~= seq![m] + seq![pr] + seq![w] + seq![r]);
    lemma_counts_one(m);
    lemma_counts_one(pr);
    lemma_counts_one(w);
    lemma_counts_one(r);
    lemma_counts_add(seq![m], seq![pr]);
    lemma_counts_add(seq![m] + seq![pr], seq![w]);
    lemma_counts_add(seq![m] + seq![pr] + seq![w], seq![r]);
}

proof fn lemma_gap_counts(home: Option<DevicePoint>, grid: MouseClickOpts, opts: HomeClickOpts)
    ensures
        move_count(gap_spec(home, grid, opts)) == (if clicks_between(home, opts) {
            1nat
        } else {
            0nat
        }),
        wait_total(gap_spec(home, grid, opts)) == (if clicks_between(home, opts) {
            2 * grid.interval + opts.duration
        } else {
            grid.interval as int
        }),
        gap_spec(home, grid, opts).len() >= 1,
{
    let w = Action::Wait(grid.interval);
    lemma_counts_one(w);
    if clicks_between(home, opts) {
        let h = home_click_spec(home->0, opts);
        lemma_click_counts(home->0, opts.button, opts.duration);
        lemma_counts_add(seq![w], h);
        lemma_counts_add(seq![w] + h, seq![w]);
    }
}

proof fn lemma_grid_counts(
    points: Seq<DevicePoint>,
    k: nat,
    home: Option<DevicePoint>,
    grid: MouseClickOpts,
    opts: HomeClickOpts,
)
    requires
        k <= points.len(),
    ensures
        move_count(grid_steps_spec(points, k, home, grid, opts)) == k + gaps(k, points.len()) * move_count(
            gap_spec(home, grid, opts),
        ),
        wait_total(grid_steps_spec(points, k, home, grid, opts)) == k * grid.duration + gaps(
            k,
            points.len(),
        ) * wait_total(gap_spec(home, grid, opts)),
        grid_steps_spec(points, k, home, grid, opts).len() == 4 * k + gaps(k, points.len())
            * gap_spec(home, grid, opts).len(),
    decreases k,
{
    if k > 0 {
        let n = points.len();
        let i = (k - 1) as nat;
        lemma_grid_counts(points, i, home, grid, opts);
        let c = click_spec(points[i as int], grid.button, grid.duration);
        let gap = gap_spec(home, grid, opts);
        let prev = grid_steps_spec(points, i, home, grid, opts);
        let step = point_step_spec(points, i as int, home, grid, opts);
        assert(grid_steps_spec(points, k, home, grid, opts) == prev + step);
        lemma_click_counts(points[i as int], grid.button, grid.duration);
        lemma_counts_add(prev, step);
        let gm = move_count(gap) as int;
        let gw = wait_total(gap) as int;
        let d = grid.duration as int;
        assert(gaps(i, n) == i);
        if k < n {
            assert(step == c + gap);
            lemma_counts_add(c, gap);
            assert(gaps(k, n) == i + 1);
            assert((i + 1) * gm == i * gm + gm) by (nonlinear_arith);
            assert((i + 1) * gw == i * gw + gw) by (nonlinear_arith);
            let gl = gap.len() as int;
            assert((i + 1) * gl == i * gl + gl) by (nonlinear_arith);
            assert(move_count(step) == 1 + gm);
            assert(wait_total(step) == d + gw);
        } else {
            assert(step =~= c);
            assert(gaps(k, n) == i);
        }
        assert((i + 1) * d == i * d + d) by (nonlinear_arith);
    } else {
        let e = grid_steps_spec(points, 0, home, grid, opts);
        assert(e.len() == 0);
        assert(move_count(e) == 0 && wait_total(e) == 0);
        assert(gaps(0, points.len()) == 0);
    }
}

proof fn lemma_grid_len_mono(
    points: Seq<DevicePoint>,
    m: nat,
    k: nat,
    home: Option<DevicePoint>,
    grid: MouseClickOpts,
    opts: HomeClickOpts,
)
    requires
        m < k <= points.len(),
    ensures
        grid_steps_spec(points, m, home, grid, opts).len() + 4 <= grid_steps_spec(
            points,
            k,
            home,
            grid,
            opts,
        ).len(),
    decreases k,
{
    if m + 1 < k {
        lemma_grid_len_mono(points, m, (k - 1) as nat, home, grid, opts);
    }
}

proof fn lemma_grid_click_at(
    points: Seq<DevicePoint>,
    i: nat,
    k: nat,
    home: Option<DevicePoint>,
    grid: MouseClickOpts,
    opts: HomeClickOpts,
)
    requires
        i < k <= points.len(),
    ensures
        forall|j: int|
            0 <= j < 4 ==> grid_steps_spec(points, k, home, grid, opts)[grid_steps_spec(
                points,
                i,
                home,
                grid,
                opts,
            ).len() + j] == click_spec(points[i as int], grid.button, grid.duration)[j],
    decreases k,
{
    if i + 1 < k {
        lemma_grid_click_at(points, i, (k - 1) as nat, home, grid, opts);
        lemma_grid_len_mono(points, i, (k - 1) as nat, home, grid, opts);
    }
}

/// A run clicks every grid point exactly once and in input order: the click
/// of point `i` (move, press, hold, release with the grid button) starts at
/// its offset, each offset lies past the previous click, and besides the grid
/// points the run moves the cursor only for its home clicks.
pub proof fn lemma_grid_clicks_in_order(
    points: Seq<DevicePoint>,
    home: Option<DevicePoint>,
    grid: MouseClickOpts,
    opts: HomeClickOpts,
)
    ensures
        forall|i: int, j: int|
            0 <= i < points.len() && 0 <= j < 4 ==> #[trigger] run_spec(points, home, grid, opts)[
                grid_click_offset(points, i, home, grid, opts) + j] == click_spec(
                points[i],
                grid.button,
                grid.duration,
            )[j],
        forall|i: int|
            0 <= i < points.len() ==> #[trigger] grid_click_offset(points, i, home, grid, opts) == 1
                + start_spec(points.len(), home, grid, opts).len() + i * (4 + gap_spec(
                home,
                grid,
                opts,
            ).len()),
        forall|i: int|
            0 <= i < points.len() - 1 ==> grid_click_offset(points, i, home, grid, opts) + 4
                <= #[trigger] grid_click_offset(points, i + 1, home, grid, opts),
        move_count(run_spec(points, home, grid, opts)) == points.len() + home_click_count(
            points.len(),
            home,
            opts,
        ),
{
    let n = points.len();
    let run = run_spec(points, home, grid, opts);
    let pre = seq![Action::SetTransparent(true)] + start_spec(n, home, grid, opts);
    let steps = grid_steps_spec(points, n, home, grid, opts);
    let post = end_spec(home, opts) + seq![Action::SetTransparent(false)];
    assert(run =~= pre + steps + post);
    assert forall|i: int, j: int| 0 <= i < n && 0 <= j < 4 implies #[trigger] run[grid_click_offset(
        points,
        i,
        home,
        grid,
        opts,
    ) + j] == click_spec(points[i], grid.button, grid.duration)[j] by {
        lemma_grid_click_at(points, i as nat, n, home, grid, opts);
        lemma_grid_len_mono(points, i as nat, n, home, grid, opts);
    }
    assert forall|i: int| 0 <= i < n - 1 implies grid_click_offset(points, i, home, grid, opts) + 4
        <= #[trigger] grid_click_offset(points, i + 1, home, grid, opts) by {
        lemma_grid_len_mono(points, i as nat, (i + 1) as nat, home, grid, opts);
    }
    assert forall|i: int| 0 <= i < n implies #[trigger] grid_click_offset(points, i, home, grid, opts)
        == 1 + start_spec(n, home, grid, opts).len() + i * (4 + gap_spec(home, grid, opts).len()) by {
        lemma_grid_counts(points, i as nat, home, grid, opts);
        let gl = gap_spec(home, grid, opts).len() as int;
        assert(gaps(i as nat, n) == i);
        assert(4 * i + i * gl == i * (4 + gl)) by (nonlinear_arith);
    }
    lemma_run_counts(points, home, grid, opts);
}

proof fn lemma_run_counts(
    points: Seq<DevicePoint>,
    home: Option<DevicePoint>,
    grid: MouseClickOpts,
    opts: HomeClickOpts,
)
    ensures
        move_count(run_spec(points, home, grid, opts)) == points.len() + home_click_count(
            points.len(),
            home,
            opts,
        ),
{
    let n = points.len();
    let t = seq![Action::SetTransparent(true)];
    let f = seq![Action::SetTransparent(false)];
    let s = start_spec(n, home, grid, opts);
    let g = grid_steps_spec(points, n, home, grid, opts);
    let e = end_spec(home, opts);
    lemma_counts_one(Action::SetTransparent(true));
    lemma_counts_one(Action::SetTransparent(false));
    lemma_counts_one(Action::Wait(grid.interval));
    lemma_counts_add(t, s);
    lemma_counts_add(t + s, g);
    lemma_counts_add(t + s + g, e);
    lemma_counts_add(t + s + g + e, f);
    lemma_grid_counts(points, n, home, grid, opts);
    lemma_gap_counts(home, grid, opts);
    assert(run_spec(points, home, grid, opts) == t + s + g + e + f);
    assert(move_count(Seq::<Action>::empty()) == 0);
    if home is Some {
        let hc = home_click_spec(home->0, opts);
        lemma_click_counts(home->0, opts.button, opts.duration);
        if opts.click_at_start {
            if n > 0 {
                lemma_counts_add(hc, seq![Action::Wait(grid.interval)]);
            } else {
                assert(s =~= hc);
            }
            assert(move_count(s) == 1);
        } else {
            assert(move_count(s) == 0);
        }
        if opts.click_in_between {
            assert(gaps(n, n) * move_count(gap_spec(home, grid, opts)) == gaps(n, n));
        } else {
            assert(gaps(n, n) * move_count(gap_spec(home, grid, opts)) == 0);
        }
    } else {
        assert(gaps(n, n) * move_count(gap_spec(home, grid, opts)) == 0);
    }
}

proof fn lemma_grid_steps_no_home(
    points: Seq<DevicePoint>,
    k: nat,
    grid: MouseClickOpts,
    a: HomeClickOpts,
    b: HomeClickOpts,
)
    ensures
        grid_steps_spec(points, k, None, grid, a) == grid_steps_spec(points, k, None, grid, b),
    decreases k,
{
    if k > 0 {
        lemma_grid_steps_no_home(points, (k - 1) as nat, grid, a, b);
        assert(gap_spec(None, grid, a) == gap_spec(None, grid, b));
    }
}

/// Without a home point the home options change nothing: the run is the
/// same whatever the three flags say, and it moves the cursor once per grid
/// point and never elsewhere.
pub proof fn lemma_no_home_no_home_clicks(
    points: Seq<DevicePoint>,
    grid: MouseClickOpts,
    a: HomeClickOpts,
    b: HomeClickOpts,
)
    ensures
        run_spec(points, None, grid, a) == run_spec(points, None, grid, b),
        move_count(run_spec(points, None, grid, a)) == points.len(),
{
    lemma_grid_steps_no_home(points, points.len(), grid, a, b);
    lemma_run_counts(points, None, grid, a);
}

/// With a home point and all three flags set, a run over `n >= 1` grid points
/// clicks home `n + 1` times: once at the start, once between each two grid
/// points and once at the end, so it moves the cursor `2n + 1` times.
pub proof fn lemma_all_home_clicks(
    points: Seq<DevicePoint>,
    home: DevicePoint,
    grid: MouseClickOpts,
    opts: HomeClickOpts,
)
    requires
        points.len() >= 1,
        opts.click_at_start,
        opts.click_in_between,
        opts.click_at_end,
    ensures
        home_click_count(points.len(), Some(home), opts) == points.len() + 1,
        move_count(run_spec(points, Some(home), grid, opts)) == 2 * points.len() + 1,
        run_spec(points, Some(home), grid, opts).subrange(1, 5) == home_click_spec(home, opts),
{
    lemma_run_counts(points, Some(home), grid, opts);
    let r = run_spec(points, Some(home), grid, opts);
    let hc = home_click_spec(home, opts);
    assert(r.subrange(1, 5) =~= hc);
}

/// The total time a run waits, button holds included: each grid click holds
/// for the grid duration, each gap waits one interval, a home click between
/// points adds its hold and a second interval, and the start and end home
/// clicks add their holds (the start one also an interval when grid points
/// follow).
pub proof fn lemma_run_wait_total(
    points: Seq<DevicePoint>,
    home: Option<DevicePoint>,
    grid: MouseClickOpts,
    opts: HomeClickOpts,
)
    ensures
        wait_total(run_spec(points, home, grid, opts)) == points.len() * grid.duration + gaps(
            points.len(),
            points.len(),
        ) * grid.interval + (if clicks_between(home, opts) {
            gaps(points.len(), points.len()) * (grid.interval + opts.duration)
        } else {
            0
        }) + (if home is Some && opts.click_at_start {
            opts.duration + if points.len() > 0 {
                grid.interval as int
            } else {
                0
            }
        } else {
            0
        }) + (if home is Some && opts.click_at_end {
            opts.duration as int
        } else {
            0
        }),
{
    let n = points.len();
    let t = seq![Action::SetTransparent(true)];
    let f = seq![Action::SetTransparent(false)];
    let s = start_spec(n, home, grid, opts);
    let g = grid_steps_spec(points, n, home, grid, opts);
    let e = end_spec(home, opts);
    lemma_counts_one(Action::SetTransparent(true));
    lemma_counts_one(Action::SetTransparent(false));
    lemma_counts_one(Action::Wait(grid.interval));
    lemma_counts_add(t, s);
    lemma_counts_add(t + s, g);
    lemma_counts_add(t + s + g, e);
    lemma_counts_add(t + s + g + e, f);
    lemma_grid_counts(points, n, home, grid, opts);
    lemma_gap_counts(home, grid, opts);
    assert(run_spec(points, home, grid, opts) == t + s + g + e + f);
    assert(wait_total(Seq::<Action>::empty()) == 0);
    let m = gaps(n, n) as int;
    let iv = grid.interval as int;
    let hd = opts.duration as int;
    if clicks_between(home, opts) {
        assert(m * (2 * iv + hd) == m * iv + m * (iv + hd)) by (nonlinear_arith);
    }
    if home is Some {
        let hc = home_click_spec(home->0, opts);
        lemma_click_counts(home->0, opts.button, opts.duration);
        if opts.click_at_start && n > 0 {
            lemma_counts_add(hc, seq![Action::Wait(grid.interval)]);
        }
        if opts.click_at_start && n == 0 {
            assert(s =~= hc);
        }
    }
}

/// A run over `n >= 1` grid points that makes no home click waits
/// `(n - 1)` intervals between points and holds the button `n` times.
pub proof fn lemma_wait_without_home(
    points: Seq<DevicePoint>,
    home: Option<DevicePoint>,
    grid: MouseClickOpts,
    opts: HomeClickOpts,
)
    requires
        points.len() >= 1,
        home is None || (!opts.click_at_start && !opts.click_in_between && !opts.click_at_end),
    ensures
        wait_total(run_spec(points, home, grid, opts)) == (points.len() - 1) * grid.interval
            + points.len() * grid.duration,
{
    lemma_run_wait_total(points, home, grid, opts);
}

} // verus!
