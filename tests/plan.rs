use gridclick::mouse::{
    handle_home_click, plan_click_points, push_click, Action, DevicePoint, HomeClickOpts,
    MouseButton, MouseClickOpts,
};

fn pt(x: i32, y: i32) -> DevicePoint {
    DevicePoint { x, y }
}

fn grid(button: MouseButton, duration: u64, interval: u64) -> MouseClickOpts {
    MouseClickOpts { button, duration, interval }
}

fn home_opts(button: MouseButton, duration: u64, start: bool, between: bool, end: bool) -> HomeClickOpts {
    HomeClickOpts {
        button,
        duration,
        click_at_start: start,
        click_in_between: between,
        click_at_end: end,
    }
}

fn click(p: DevicePoint, b: MouseButton, d: u64) -> Vec<Action> {
    vec![Action::MoveTo(p), Action::Press(b), Action::Wait(d), Action::Release(b)]
}

fn moves(actions: &[Action]) -> Vec<DevicePoint> {
    actions
        .iter()
        .filter_map(|a| match a {
            Action::MoveTo(p) => Some(*p),
            _ => None,
        })
        .collect()
}

fn total_wait(actions: &[Action]) -> u64 {
    actions
        .iter()
        .map(|a| match a {
            Action::Wait(ms) => *ms,
            _ => 0,
        })
        .sum()
}

#[test]
fn end_to_end_start_and_end_home_clicks() {
    let points = vec![pt(100, 100), pt(200, 200)];
    let plan = plan_click_points(
        &points,
        Some(pt(0, 0)),
        grid(MouseButton::Left, 10, 50),
        home_opts(MouseButton::Left, 10, true, false, true),
    );
    let l = MouseButton::Left;
    let expected = vec![
        Action::SetTransparent(true),
        Action::MoveTo(pt(0, 0)),
        Action::Press(l),
        Action::Wait(10),
        Action::Release(l),
        Action::Wait(50),
        Action::MoveTo(pt(100, 100)),
        Action::Press(l),
        Action::Wait(10),
        Action::Release(l),
        Action::Wait(50),
        Action::MoveTo(pt(200, 200)),
        Action::Press(l),
        Action::Wait(10),
        Action::Release(l),
        Action::MoveTo(pt(0, 0)),
        Action::Press(l),
        Action::Wait(10),
        Action::Release(l),
        Action::SetTransparent(false),
    ];
    assert_eq!(plan, expected);
}

#[test]
fn grid_points_clicked_in_order() {
    let points = vec![pt(5, 6), pt(-3, 7), pt(5, 6), pt(40, 1)];
    let plan = plan_click_points(
        &points,
        None,
        grid(MouseButton::Right, 3, 4),
        home_opts(MouseButton::Left, 1, false, false, false),
    );
    assert_eq!(moves(&plan), points);
    let mut expected = vec![Action::SetTransparent(true)];
    for (i, p) in points.iter().enumerate() {
        expected.extend(click(*p, MouseButton::Right, 3));
        if i + 1 < points.len() {
            expected.push(Action::Wait(4));
        }
    }
    expected.push(Action::SetTransparent(false));
    assert_eq!(plan, expected);
}

#[test]
fn no_home_ignores_home_flags() {
    let points = vec![pt(1, 1), pt(2, 2), pt(3, 3)];
    let g = grid(MouseButton::Left, 5, 7);
    let all = plan_click_points(&points, None, g, home_opts(MouseButton::Middle, 9, true, true, true));
    let none = plan_click_points(&points, None, g, home_opts(MouseButton::Left, 1, false, false, false));
    assert_eq!(all, none);
    assert_eq!(moves(&all).len(), 3);
}

#[test]
fn all_home_flags_click_home_n_plus_one_times() {
    let home = pt(-50, -60);
    let points = vec![pt(1, 1), pt(2, 2), pt(3, 3)];
    let plan = plan_click_points(
        &points,
        Some(home),
        grid(MouseButton::Left, 5, 7),
        home_opts(MouseButton::Middle, 9, true, true, true),
    );
    let m = moves(&plan);
    assert_eq!(m.len(), 7);
    assert_eq!(m.iter().filter(|p| **p == home).count(), 4);
    assert_eq!(m, vec![home, pt(1, 1), home, pt(2, 2), home, pt(3, 3), home]);
    let presses = plan
        .iter()
        .filter(|a| **a == Action::Press(MouseButton::Middle))
        .count();
    assert_eq!(presses, 4);
}

#[test]
fn between_click_is_bracketed_by_two_intervals() {
    let home = pt(9, 9);
    let points = vec![pt(1, 2), pt(3, 4)];
    let plan = plan_click_points(
        &points,
        Some(home),
        grid(MouseButton::Left, 2, 30),
        home_opts(MouseButton::Right, 6, false, true, false),
    );
    let mut expected = vec![Action::SetTransparent(true)];
    expected.extend(click(pt(1, 2), MouseButton::Left, 2));
    expected.push(Action::Wait(30));
    expected.extend(click(home, MouseButton::Right, 6));
    expected.push(Action::Wait(30));
    expected.extend(click(pt(3, 4), MouseButton::Left, 2));
    expected.push(Action::SetTransparent(false));
    assert_eq!(plan, expected);
}

#[test]
fn empty_points_with_start_and_end_both_fire() {
    let home = pt(3, 3);
    let plan = plan_click_points(
        &Vec::new(),
        Some(home),
        grid(MouseButton::Left, 5, 100),
        home_opts(MouseButton::Left, 8, true, true, true),
    );
    let mut expected = vec![Action::SetTransparent(true)];
    expected.extend(click(home, MouseButton::Left, 8));
    expected.extend(click(home, MouseButton::Left, 8));
    expected.push(Action::SetTransparent(false));
    assert_eq!(plan, expected);
}

#[test]
fn empty_run_only_toggles_the_window() {
    let plan = plan_click_points(
        &Vec::new(),
        None,
        grid(MouseButton::Left, 5, 100),
        home_opts(MouseButton::Left, 8, true, true, true),
    );
    assert_eq!(plan, vec![Action::SetTransparent(true), Action::SetTransparent(false)]);
}

#[test]
fn wait_total_without_home_clicks() {
    let points = vec![pt(0, 0), pt(1, 0), pt(2, 0), pt(3, 0), pt(4, 0)];
    let plan = plan_click_points(
        &points,
        Some(pt(7, 7)),
        grid(MouseButton::Left, 12, 40),
        home_opts(MouseButton::Left, 1000, false, false, false),
    );
    assert_eq!(total_wait(&plan), 4 * 40 + 5 * 12);
    let single = plan_click_points(
        &vec![pt(0, 0)],
        None,
        grid(MouseButton::Left, 12, 40),
        home_opts(MouseButton::Left, 1000, true, true, true),
    );
    assert_eq!(total_wait(&single), 12);
}

#[test]
fn wait_total_with_every_home_click() {
    let points = vec![pt(0, 0), pt(1, 0), pt(2, 0)];
    let plan = plan_click_points(
        &points,
        Some(pt(7, 7)),
        grid(MouseButton::Left, 12, 40),
        home_opts(MouseButton::Left, 3, true, true, true),
    );
    // grid holds, gaps, between holds and second intervals, start hold and interval, end hold
    assert_eq!(total_wait(&plan), 3 * 12 + 2 * 40 + 2 * (40 + 3) + (3 + 40) + 3);
}

#[test]
fn press_always_followed_by_its_release() {
    let plan = plan_click_points(
        &vec![pt(1, 1), pt(2, 2)],
        Some(pt(0, 0)),
        grid(MouseButton::Middle, 1, 1),
        home_opts(MouseButton::Right, 1, true, true, true),
    );
    for (i, a) in plan.iter().enumerate() {
        if let Action::Press(b) = a {
            assert_eq!(plan[i + 1], Action::Wait(1));
            assert_eq!(plan[i + 2], Action::Release(*b));
        }
    }
}

#[test]
fn push_click_appends_four_events() {
    let mut actions = vec![Action::Wait(1)];
    push_click(&mut actions, pt(4, 5), MouseButton::Right, 20);
    let mut expected = vec![Action::Wait(1)];
    expected.extend(click(pt(4, 5), MouseButton::Right, 20));
    assert_eq!(actions, expected);
}

#[test]
fn home_click_uses_home_button_and_duration() {
    let mut actions = Vec::new();
    handle_home_click(&mut actions, pt(-1, 2), home_opts(MouseButton::Middle, 15, false, false, false));
    assert_eq!(actions, click(pt(-1, 2), MouseButton::Middle, 15));
}
