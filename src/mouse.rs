//! The click sequencer: from the grid points, the optional home point and the
//! click options it builds the exact sequence of input events of one run.
use vstd::prelude::*;

verus! {

/// A point on the screen in whole device pixels, absolute coordinates.
#[derive(Clone, Copy, Debug, PartialEq, Eq, Structural)]
pub struct DevicePoint {
    pub x: i32,
    pub y: i32,
}

/// The three mouse buttons that a click can use.
#[derive(Clone, Copy, Debug, PartialEq, Eq, Structural)]
pub enum MouseButton {
    Left,
    Middle,
    Right,
}

/// How each grid point is clicked: the button, how long it stays pressed and
/// the pause between consecutive points, both in milliseconds.
#[derive(Clone, Copy, Debug, PartialEq, Eq, Structural)]
pub struct MouseClickOpts {
    pub button: MouseButton,
    pub duration: u64,
    pub interval: u64,
}

/// How the home point is clicked, and where in the run: before the first grid
/// point, between each two grid points, after the last one.
#[derive(Clone, Copy, Debug, PartialEq, Eq, Structural)]
pub struct HomeClickOpts {
    pub button: MouseButton,
    pub duration: u64,
    pub click_at_start: bool,
    pub click_in_between: bool,
    pub click_at_end: bool,
}

/// One step that the input backend and the window carry out, in order.
#[derive(Clone, Copy, Debug, PartialEq, Eq, Structural)]
pub enum Action {
    /// Make the host window click-through (`true`) or opaque again (`false`).
    SetTransparent(bool),
    /// Move the cursor to an absolute position.
    MoveTo(DevicePoint),
    /// Press a button down.
    Press(MouseButton),
    /// Let a button go.
    Release(MouseButton),
    /// Wait this many milliseconds.
    Wait(u64),
}

/// One click: move to the point, press, hold for the duration, release.
pub open spec fn click_spec(p: DevicePoint, button: MouseButton, duration: u64) -> Seq<Action> {
    seq![Action::MoveTo(p), Action::Press(button), Action::Wait(duration), Action::Release(button)]
}

/// A click on the home point with the home options.
pub open spec fn home_click_spec(home: DevicePoint, opts: HomeClickOpts) -> Seq<Action> {
    click_spec(home, opts.button, opts.duration)
}

/// Whether a home click is made between each two grid points.
pub open spec fn clicks_between(home: Option<DevicePoint>, opts: HomeClickOpts) -> bool {
    home is Some && opts.click_in_between
}

/// What follows a grid point that is not the last: one interval, and where a
/// home click is made between points, that click and a second interval.
pub open spec fn gap_spec(home: Option<DevicePoint>, grid: MouseClickOpts, opts: HomeClickOpts) -> Seq<
    Action,
> {
    if clicks_between(home, opts) {
        seq![Action::Wait(grid.interval)] + home_click_spec(home->0, opts) + seq![
            Action::Wait(grid.interval),
        ]
    } else {
        seq![Action::Wait(grid.interval)]
    }
}

/// The events of grid point `i`: its click, then the gap unless it is the last.
pub open spec fn point_step_spec(
    points: Seq<DevicePoint>,
    i: int,
    home: Option<DevicePoint>,
    grid: MouseClickOpts,
    opts: HomeClickOpts,
) -> Seq<Action> {
    click_spec(points[i], grid.button, grid.duration) + if i + 1 < points.len() {
        gap_spec(home, grid, opts)
    } else {
        Seq::empty()
    }
}

/// The events of the first `k` grid points, in order.
pub open spec fn grid_steps_spec(
    points: Seq<DevicePoint>,
    k: nat,
    home: Option<DevicePoint>,
    grid: MouseClickOpts,
    opts: HomeClickOpts,
) -> Seq<Action>
    decreases k,
{
    if k == 0 {
        Seq::empty()
    } else {
        grid_steps_spec(points, (k - 1) as nat, home, grid, opts) + point_step_spec(
            points,
            k - 1,
            home,
            grid,
            opts,
        )
    }
}

/// The events before the first grid point: the start home click, followed by
/// an interval when grid points come after it.
pub open spec fn start_spec(
    n: nat,
    home: Option<DevicePoint>,
    grid: MouseClickOpts,
    opts: HomeClickOpts,
) -> Seq<Action> {
    if home is Some && opts.click_at_start {
        home_click_spec(home->0, opts) + if n > 0 {
            seq![Action::Wait(grid.interval)]
        } else {
            Seq::empty()
        }
    } else {
        Seq::empty()
    }
}

/// The events after the last grid point: the end home click, if any.
pub open spec fn end_spec(home: Option<DevicePoint>, opts: HomeClickOpts) -> Seq<Action> {
    if home is Some && opts.click_at_end {
        home_click_spec(home->0, opts)
    } else {
        Seq::empty()
    }
}

/// The whole run: the window is made click-through, the home and grid clicks
/// follow in order, and the window is made opaque again.
pub open spec fn run_spec(
    points: Seq<DevicePoint>,
    home: Option<DevicePoint>,
    grid: MouseClickOpts,
    opts: HomeClickOpts,
) -> Seq<Action> {
    seq![Action::SetTransparent(true)] + start_spec(points.len(), home, grid, opts)
        + grid_steps_spec(points, points.len(), home, grid, opts) + end_spec(home, opts) + seq![
        Action::SetTransparent(false),
    ]
}

/// Appends one click: move, press, hold, release.
pub fn push_click(actions: &mut Vec<Action>, p: DevicePoint, button: MouseButton, duration: u64)
    ensures
        final(actions)@ == old(actions)@ + click_spec(p, button, duration),
{
    actions.push(Action::MoveTo(p));
    actions.push(Action::Press(button));
    actions.push(Action::Wait(duration));
    actions.push(Action::Release(button));
    assert(actions@ =~= old(actions)@ + click_spec(p, button, duration));
}

/// Appends a click on the home point with the home button and duration.
pub fn handle_home_click(actions: &mut Vec<Action>, home: DevicePoint, opts: HomeClickOpts)
    ensures
        final(actions)@ == old(actions)@ + home_click_spec(home, opts),
{
    push_click(actions, home, opts.button, opts.duration);
}

/// Builds the events of one click run over `points`, in the order in which
/// they are to be carried out.
pub fn plan_click_points(
    points: &Vec<DevicePoint>,
    home: Option<DevicePoint>,
    grid: MouseClickOpts,
    opts: HomeClickOpts,
) -> (r: Vec<Action>)
    ensures
        r@ == run_spec(points@, home, grid, opts),
        r@.len() >= 2,
        r@[0] == Action::SetTransparent(true),
        r@.last() == Action::SetTransparent(false),
{
    let n = points.len();
    let mut actions: Vec<Action> = Vec::new();
    actions.push(Action::SetTransparent(true));
    match home {
        Some(h) => {
            if opts.click_at_start {
                handle_home_click(&mut actions, h, opts);
                if n > 0 {
                    actions.push(Action::Wait(grid.interval));
                }
            }
        },
        None => {},
    }
    assert(actions@ =~= seq![Action::SetTransparent(true)] + start_spec(n as nat, home, grid, opts)
        + grid_steps_spec(points@, 0, home, grid, opts));
    let mut i: usize = 0;
    while i < n
        invariant
            n == points@.len(),
            i <= n,
            actions@ == seq![Action::SetTransparent(true)] + start_spec(n as nat, home, grid, opts)
                + grid_steps_spec(points@, i as nat, home, grid, opts),
        decreases n - i,
    {
        let ghost before = actions@;
        push_click(&mut actions, points[i], grid.button, grid.duration);
        if i + 1 < n {
            actions.push(Action::Wait(grid.interval));
            match home {
                Some(h) => {
                    if opts.click_in_between {
                        handle_home_click(&mut actions, h, opts);
                        actions.push(Action::Wait(grid.interval));
                    }
                },
                None => {},
            }
        }
        assert(actions@ =~= before + point_step_spec(points@, i as int, home, grid, opts));
        i = i + 1;
    }
    match home {
        Some(h) => {
            if opts.click_at_end {
                handle_home_click(&mut actions, h, opts);
            }
        },
        None => {},
    }
    actions.push(Action::SetTransparent(false));
    assert(actions@ =~= run_spec(points@, home, grid, opts));
    actions
}

} // verus!
