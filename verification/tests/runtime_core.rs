use tui_runtime::action::Action;
use tui_runtime::home::{Home, Mode};
use tui_runtime::runtime::{drain, RunError};

#[test]
fn add_to_counter_applies_whole_delta() {
    let mut h = Home::new();
    assert_eq!(h.counter, 0);
    let follow = h.dispatch(Action::AddToCounter(5));
    assert_eq!(h.counter, 5);
    assert_eq!(follow, None);
}

#[test]
fn schedule_increment_defers_the_increment() {
    let mut h = Home::new();
    let follow = h.dispatch(Action::ScheduleIncrementCounter);
    assert_eq!(h.counter, 0);
    assert_eq!(follow, Some(Action::AddToCounter(1)));

    let mut h = Home::new();
    let mut q = vec![Action::ScheduleIncrementCounter];
    let (dispatched, _traced) = drain(&mut h, &mut q);
    assert_eq!(
        dispatched,
        vec![Action::ScheduleIncrementCounter, Action::AddToCounter(1)]
    );
    assert_eq!(h.counter, 1);
    assert!(q.is_empty());
}

#[test]
fn schedule_decrement_defers_the_decrement() {
    let mut h = Home::new();
    h.dispatch(Action::AddToCounter(4));
    let mut q = vec![Action::ScheduleDecrementCounter];
    let (dispatched, _traced) = drain(&mut h, &mut q);
    assert_eq!(
        dispatched,
        vec![Action::ScheduleDecrementCounter, Action::SubtractFromCounter(1)]
    );
    assert_eq!(h.counter, 3);
}

#[test]
fn quit_sets_should_quit_and_gates_shutdown() {
    let mut h = Home::new();
    let mut q = vec![Action::Update, Action::Quit];
    assert!(!h.should_quit);
    let (dispatched, _traced) = drain(&mut h, &mut q);
    assert_eq!(dispatched, vec![Action::Update, Action::Quit]);
    assert!(h.should_quit);
    assert!(q.is_empty());
}

#[test]
fn batch_behind_quit_still_dispatched() {
    let mut h = Home::new();
    let mut q = vec![Action::Quit, Action::AddToCounter(3)];
    let (dispatched, _traced) = drain(&mut h, &mut q);
    assert_eq!(dispatched, vec![Action::Quit, Action::AddToCounter(3)]);
    assert_eq!(h.counter, 3);
    assert!(h.should_quit);
    assert!(q.is_empty());

    // The quit flag gates the caller's next cycle: after it is observed,
    // no further drain runs; an empty one would dispatch nothing.
    let (dispatched, traced) = drain(&mut h, &mut q);
    assert!(dispatched.is_empty());
    assert!(traced.is_empty());
}

#[test]
fn deferred_action_survives_quit_in_same_batch() {
    let mut h = Home::new();
    let mut q = vec![Action::ScheduleIncrementCounter, Action::Quit];
    let (dispatched, _traced) = drain(&mut h, &mut q);
    assert_eq!(
        dispatched,
        vec![
            Action::ScheduleIncrementCounter,
            Action::Quit,
            Action::AddToCounter(1)
        ]
    );
    assert_eq!(h.counter, 1);
    assert!(h.should_quit);
    assert!(q.is_empty());
}

#[test]
fn tick_is_never_traced_and_everything_else_is() {
    let mut h = Home::new();
    let mut q = vec![
        Action::Tick,
        Action::Update,
        Action::Tick,
        Action::Resize(80, 24),
        Action::Noop,
    ];
    let (dispatched, traced) = drain(&mut h, &mut q);
    assert_eq!(dispatched.len(), 5);
    assert_eq!(
        traced,
        vec![Action::Update, Action::Resize(80, 24), Action::Noop]
    );
    assert_eq!(h.ticks, 2);
}

#[test]
fn every_enqueued_action_dispatched_exactly_once() {
    let mut h = Home::new();
    let input = vec![
        Action::AddToCounter(2),
        Action::ScheduleIncrementCounter,
        Action::Quit,
        Action::Update,
        Action::ScheduleDecrementCounter,
        Action::Tick,
    ];
    let mut q = input.clone();
    let (dispatched, _traced) = drain(&mut h, &mut q);
    let mut expected = input.clone();
    expected.push(Action::AddToCounter(1));
    expected.push(Action::SubtractFromCounter(1));
    assert_eq!(dispatched, expected);
    assert!(q.is_empty());
}

#[test]
fn follow_up_observed_by_later_dispatch() {
    let mut h = Home::new();
    let mut q = vec![Action::ScheduleIncrementCounter, Action::Update];
    let (dispatched, _traced) = drain(&mut h, &mut q);
    let producer = dispatched
        .iter()
        .position(|a| *a == Action::ScheduleIncrementCounter)
        .unwrap();
    let consumer = dispatched
        .iter()
        .position(|a| *a == Action::AddToCounter(1))
        .unwrap();
    assert!(producer < consumer);
}

#[test]
fn counter_equals_sum_of_fully_applied_deltas() {
    let mut h = Home::new();
    let mut q = vec![
        Action::AddToCounter(5),
        Action::SubtractFromCounter(2),
        Action::AddToCounter(7),
    ];
    let (_dispatched, _traced) = drain(&mut h, &mut q);
    assert_eq!(h.counter, 10);
}

#[test]
fn counter_saturates_at_both_ends() {
    let mut h = Home::new();
    h.dispatch(Action::AddToCounter(1));
    h.dispatch(Action::AddToCounter(usize::MAX));
    assert_eq!(h.counter, usize::MAX);
    let mut h = Home::new();
    h.dispatch(Action::AddToCounter(3));
    h.dispatch(Action::SubtractFromCounter(5));
    assert_eq!(h.counter, 0);
}

#[test]
fn mode_transitions_are_exclusive_and_exit_restores_prior() {
    let mut h = Home::new();
    assert_eq!(h.mode, Mode::Normal);
    h.dispatch(Action::EnterInsert);
    assert_eq!(h.mode, Mode::Insert);
    h.dispatch(Action::EnterProcessing);
    assert_eq!(h.mode, Mode::Processing);
    h.dispatch(Action::EnterProcessing);
    assert_eq!(h.mode, Mode::Processing);
    h.dispatch(Action::ExitProcessing);
    assert_eq!(h.mode, Mode::Insert);
    h.dispatch(Action::EnterNormal);
    assert_eq!(h.mode, Mode::Normal);
}

#[test]
fn toggle_show_logger_flips() {
    let mut h = Home::new();
    assert!(!h.show_logger);
    h.dispatch(Action::ToggleShowLogger);
    assert!(h.show_logger);
    h.dispatch(Action::ToggleShowLogger);
    assert!(!h.show_logger);
}

#[test]
fn neutral_actions_change_nothing() {
    let mut h = Home::new();
    let before = h;
    h.dispatch(Action::Update);
    h.dispatch(Action::Noop);
    h.dispatch(Action::Resize(120, 40));
    assert_eq!(h, before);
}

#[test]
fn init_succeeds_and_preserves_state() {
    let mut h = Home::new();
    let before = h;
    assert!(h.init().is_ok());
    assert_eq!(h, before);
}

#[test]
fn run_error_messages() {
    assert_eq!(RunError::StartupFailure.message(), "startup failure");
    assert_eq!(RunError::QueueFailure.message(), "action queue closed");
    assert_eq!(RunError::TaskJoinFailure.message(), "background task failed");
    assert_eq!(RunError::TerminalFailure.message(), "terminal failure");
}

#[test]
fn concurrent_counter_deltas_are_never_torn() {
    let rt = tokio::runtime::Builder::new_multi_thread()
        .worker_threads(4)
        .build()
        .unwrap();
    rt.block_on(async {
        let home = std::sync::Arc::new(tokio::sync::Mutex::new(Home::new()));
        let mut handles = Vec::new();
        for _ in 0..8 {
            let shared = home.clone();
            handles.push(tokio::spawn(async move {
                for _ in 0..500 {
                    shared.lock().await.dispatch(Action::AddToCounter(3));
                    shared.lock().await.dispatch(Action::SubtractFromCounter(1));
                }
            }));
        }
        for handle in handles {
            handle.await.unwrap();
        }
        assert_eq!(home.lock().await.counter, 8 * 500 * 2);
    });
}
