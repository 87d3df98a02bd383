use embassy_executor::controller::InterruptController;
use embassy_executor::interrupt::InterruptExecutor;
use embassy_executor::pender::WakeAction;

#[test]
fn idle_controller_dispatches_nothing() {
    let mut ctl = InterruptController::new(4);
    assert_eq!(ctl.line_count(), 4);
    assert_eq!(ctl.next_line(), None);
    assert_eq!(ctl.take_next(), None);
}

#[test]
fn masked_pending_line_is_not_dispatched() {
    let mut ctl = InterruptController::new(4);
    ctl.set_pending(2);
    assert_eq!(ctl.next_line(), None);
    ctl.unmask(2);
    assert_eq!(ctl.next_line(), Some(2));
}

#[test]
fn lower_priority_value_wins_arbitration() {
    let mut ctl = InterruptController::new(4);
    ctl.set_priority(0, 5);
    ctl.set_priority(2, 1);
    ctl.unmask(0);
    ctl.unmask(2);
    ctl.set_pending(0);
    ctl.set_pending(2);
    assert_eq!(ctl.next_line(), Some(2));
}

#[test]
fn equal_priorities_tie_break_to_the_lower_line() {
    let mut ctl = InterruptController::new(4);
    ctl.set_priority(1, 3);
    ctl.set_priority(3, 3);
    ctl.unmask(1);
    ctl.unmask(3);
    ctl.set_pending(3);
    ctl.set_pending(1);
    assert_eq!(ctl.next_line(), Some(1));
}

#[test]
fn take_next_clears_the_dispatched_pending_bit() {
    let mut ctl = InterruptController::new(4);
    ctl.set_priority(1, 1);
    ctl.set_priority(2, 2);
    ctl.unmask(1);
    ctl.unmask(2);
    ctl.set_pending(1);
    ctl.set_pending(2);
    assert_eq!(ctl.take_next(), Some(1));
    assert_eq!(ctl.take_next(), Some(2));
    assert_eq!(ctl.take_next(), None);
}

#[test]
fn pends_coalesce_into_one_dispatch() {
    let mut ctl = InterruptController::new(4);
    ctl.unmask(3);
    ctl.set_pending(3);
    ctl.set_pending(3);
    ctl.set_pending(3);
    assert_eq!(ctl.take_next(), Some(3));
    assert_eq!(ctl.take_next(), None);
}

const TASK_LOW: u64 = 10;
const TASK_HIGH: u64 = 20;
const HIGH_LINE: u16 = 1;
const LOW_LINE: u16 = 5;

#[test]
fn higher_priority_executor_preempts_lower() {
    let mut ctl = InterruptController::new(8);
    // priorities are configured before start and never changed afterwards;
    // the lower value is the more urgent line
    ctl.set_priority(HIGH_LINE, 1);
    ctl.set_priority(LOW_LINE, 3);

    let mut high = InterruptExecutor::new();
    let mut low = InterruptExecutor::new();
    high.start(HIGH_LINE, &mut ctl).expect("first start must succeed");
    low.start(LOW_LINE, &mut ctl).expect("first start must succeed");

    // a task is submitted to the low executor; its wake pends the low line
    match low.wake(TASK_LOW) {
        WakeAction::SetPending(n) => {
            assert_eq!(n, LOW_LINE);
            ctl.set_pending(n);
        }
        WakeAction::SignalEvent => panic!("interrupt-mode executor must pend its line"),
    }

    // the controller dispatches the low line; its handler begins its pass
    assert_eq!(ctl.take_next(), Some(LOW_LINE));

    // the low task, while running, pends a wake that triggers a task on
    // the high executor
    match high.wake(TASK_HIGH) {
        WakeAction::SetPending(n) => {
            assert_eq!(n, HIGH_LINE);
            ctl.set_pending(n);
        }
        WakeAction::SignalEvent => panic!("interrupt-mode executor must pend its line"),
    }

    // arbitration now schedules the high line before the low pass resumes:
    // the high executor's poll pass completes first
    assert_eq!(ctl.take_next(), Some(HIGH_LINE));
    assert_eq!(high.on_interrupt(), vec![TASK_HIGH]);

    // only then does the low pass resume and complete
    assert_eq!(low.on_interrupt(), vec![TASK_LOW]);
    assert_eq!(ctl.take_next(), None);
}
