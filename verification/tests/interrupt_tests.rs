use embassy_executor::controller::InterruptController;
use embassy_executor::interrupt::{ExecError, InterruptExecutor};
use embassy_executor::pender::{InterruptPender, Pender, WakeAction};
use embassy_executor::sched::SendSpawner;

#[test]
fn new_interrupt_executor_is_not_started() {
    let ex = InterruptExecutor::new();
    assert!(!ex.started());
}

#[test]
fn spawner_before_start_reports_not_started() {
    let ex = InterruptExecutor::new();
    // a freshly constructed, never-started executor always reports the
    // uninitialized-contract violation
    assert_eq!(ex.spawner(), Err(ExecError::NotStarted));
    assert_eq!(ex.spawner(), Err(ExecError::NotStarted));
}

#[test]
fn start_returns_a_handle_bound_to_the_line() {
    let mut ctl = InterruptController::new(8);
    let mut ex = InterruptExecutor::new();
    let handle = ex.start(3, &mut ctl).expect("first start must succeed");
    assert_eq!(handle.pender, Pender::Interrupt(InterruptPender(3)));
    assert!(ex.started());
    // spawner now hands out an equivalent cross-context handle
    assert_eq!(
        ex.spawner(),
        Ok(SendSpawner { pender: Pender::Interrupt(InterruptPender(3)) })
    );
}

#[test]
fn start_succeeds_exactly_once() {
    let mut ctl = InterruptController::new(8);
    let mut ex = InterruptExecutor::new();
    assert!(ex.start(2, &mut ctl).is_ok());
    // every later attempt, whatever line it names, observes the
    // duplicate-start condition and changes nothing
    for _ in 0..3 {
        assert_eq!(ex.start(2, &mut ctl), Err(ExecError::AlreadyStarted));
    }
    assert_eq!(ex.start(5, &mut ctl), Err(ExecError::AlreadyStarted));
    // the executor still serves the line it was first started on
    assert_eq!(ex.wake(1), WakeAction::SetPending(2));
}

#[test]
fn start_unmasks_the_line_so_a_pend_dispatches_it() {
    let mut ctl = InterruptController::new(8);
    // pending before unmask: nothing is dispatched
    ctl.set_pending(4);
    assert_eq!(ctl.next_line(), None);
    let mut ex = InterruptExecutor::new();
    ex.start(4, &mut ctl).expect("first start must succeed");
    // start unmasked line 4: the earlier pend is now serviceable, exactly
    // the situation the core must already be constructed for
    assert_eq!(ctl.take_next(), Some(4));
    assert_eq!(ex.on_interrupt(), Vec::<u64>::new());
}

#[test]
fn wake_pends_the_started_line() {
    let mut ctl = InterruptController::new(8);
    let mut ex = InterruptExecutor::new();
    ex.start(6, &mut ctl).expect("first start must succeed");
    assert_eq!(ex.wake(11), WakeAction::SetPending(6));
    assert_eq!(ex.wake(12), WakeAction::SetPending(6));
}

#[test]
fn on_interrupt_polls_in_order_and_drains() {
    let mut ctl = InterruptController::new(8);
    let mut ex = InterruptExecutor::new();
    ex.start(1, &mut ctl).expect("first start must succeed");
    ex.wake(11);
    ex.wake(12);
    assert_eq!(ex.on_interrupt(), vec![11, 12]);
    assert_eq!(ex.on_interrupt(), Vec::<u64>::new());
}
