use x11bar::bar::{Action, Phase, X11Bar};

#[test]
fn default_bar_publishes_once_each_second() {
    assert_eq!(X11Bar::default(), X11Bar { refresh_rate_ms: 1000, is_looped: false });
}

#[test]
fn single_run_publishes_once_then_closes() {
    let bar = X11Bar { refresh_rate_ms: 1000, is_looped: false };
    for max_steps in [2usize, 3, 10, 1000] {
        assert_eq!(bar.run(max_steps), vec![Action::Publish, Action::Close]);
    }
}

#[test]
fn single_run_never_sleeps() {
    let bar = X11Bar { refresh_rate_ms: 5, is_looped: false };
    let actions = bar.run(50);
    assert_eq!(actions.iter().filter(|a| **a == Action::Publish).count(), 1);
    assert_eq!(actions.iter().filter(|a| **a == Action::Close).count(), 1);
    assert!(actions.iter().all(|a| !matches!(a, Action::SleepThenPublish(_))));
    assert_eq!(actions.last(), Some(&Action::Close));
}

#[test]
fn looping_run_goes_on_for_as_long_as_allowed() {
    let bar = X11Bar { refresh_rate_ms: 250, is_looped: true };
    assert_eq!(bar.run(1), vec![Action::Publish]);
    assert_eq!(
        bar.run(4),
        vec![
            Action::Publish,
            Action::SleepThenPublish(250),
            Action::SleepThenPublish(250),
            Action::SleepThenPublish(250),
        ]
    );
    let long = bar.run(500);
    assert_eq!(long.len(), 500);
    assert_eq!(long[0], Action::Publish);
    assert!(long[1..].iter().all(|a| *a == Action::SleepThenPublish(250)));
    assert!(!long.contains(&Action::Close));
}

#[test]
fn run_cut_short() {
    let single = X11Bar { refresh_rate_ms: 1000, is_looped: false };
    let looping = X11Bar { refresh_rate_ms: 1000, is_looped: true };
    assert_eq!(single.run(0), vec![]);
    assert_eq!(looping.run(0), vec![]);
    assert_eq!(single.run(1), vec![Action::Publish]);
}

#[test]
fn steps_follow_the_life_cycle() {
    let single = X11Bar { refresh_rate_ms: 1000, is_looped: false };
    let looping = X11Bar { refresh_rate_ms: 30, is_looped: true };
    assert_eq!(single.step(Phase::Created), Some((Action::Publish, Phase::Published)));
    assert_eq!(single.step(Phase::Published), Some((Action::Close, Phase::Closed)));
    assert_eq!(single.step(Phase::Closed), None);
    assert_eq!(looping.step(Phase::Created), Some((Action::Publish, Phase::Published)));
    assert_eq!(
        looping.step(Phase::Published),
        Some((Action::SleepThenPublish(30), Phase::Published))
    );
    assert_eq!(looping.step(Phase::Closed), None);
}
