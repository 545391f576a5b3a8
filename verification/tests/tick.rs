use clear_view::tick::TickStep;

/// The steps of a tick, where drawing turns out as given.
fn course(enabled: bool, drawn: bool) -> Vec<TickStep> {
    let mut steps = Vec::new();
    let mut step = TickStep::Transition;
    while step != TickStep::Done {
        steps.push(step);
        step = step.next(enabled, step != TickStep::Draw || drawn);
    }
    steps
}

#[test]
fn a_disabled_tick_only_applies_the_settings() {
    assert_eq!(course(false, true), vec![TickStep::Transition]);
    assert_eq!(course(false, false), vec![TickStep::Transition]);
}

#[test]
fn an_enabled_tick_draws_once() {
    let mut steps = vec![
        TickStep::Transition,
        TickStep::Follow,
        TickStep::Upload,
        TickStep::WriteUniforms,
        TickStep::Draw,
    ];
    assert_eq!(course(true, true), steps);
    steps.push(TickStep::Recover);
    assert_eq!(course(true, false), steps);
    assert_eq!(TickStep::Done.next(true, false), TickStep::Done);
}
