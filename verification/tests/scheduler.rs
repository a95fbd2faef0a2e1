use ringlight::scheduler::{
    idle_step, InputEventHandler, Ownership, PeripheralId, Scheduler, SharedResourceManager,
    TaskId, TaskState, HANDLER_PRIORITY, IDLE_PRIORITY, SHARED_CEILING,
};
use ringlight::bootstrap::{bootstrap, BUS_WINDOW};
use ringlight::bus::TransmissionError;
use ringlight::color::Palette;
use ringlight::encoder::BYTES_PER_COLOR;

#[test]
fn press_is_serviced_once_and_latch_ends_clear() {
    let mut sched = Scheduler::start();
    assert_eq!(sched.running(), TaskState::Idle);
    assert_eq!(sched.current_priority(), IDLE_PRIORITY);

    sched.signal_edge();
    sched.dispatch();
    assert_eq!(sched.running(), TaskState::Handling);
    assert_eq!(sched.current_priority(), HANDLER_PRIORITY);

    InputEventHandler::on_edge(&mut sched);
    // the mandatory side effect: the hardware pending bit is clear
    assert!(!sched.read_pending());

    sched.return_from_handler();
    // latch clear, so no re-entrant dispatch: control is back in the loop
    assert_eq!(sched.running(), TaskState::Idle);
    assert_eq!(sched.current_priority(), IDLE_PRIORITY);
}

#[test]
fn unacknowledged_edge_refires_the_handler() {
    let mut sched = Scheduler::start();
    sched.signal_edge();
    sched.dispatch();
    // returning without clearing the latch re-enters the handler at once
    sched.return_from_handler();
    assert_eq!(sched.running(), TaskState::Handling);
    assert_eq!(sched.current_priority(), HANDLER_PRIORITY);
    // servicing it properly ends back in the loop
    sched.service_interrupt();
    assert_eq!(sched.running(), TaskState::Idle);
    sched.enter_critical();
    assert!(!sched.read_pending());
    sched.exit_critical();
}

#[test]
fn ceiling_section_gives_the_loop_safe_access() {
    let mut sched = Scheduler::start();
    sched.signal_edge();
    sched.enter_critical();
    assert_eq!(sched.current_priority(), SHARED_CEILING);
    assert!(sched.read_pending());
    assert!(!sched.read_button());
    sched.clear_pending();
    assert!(!sched.read_pending());
    sched.exit_critical();
    assert_eq!(sched.current_priority(), IDLE_PRIORITY);
    assert_eq!(sched.running(), TaskState::Idle);
}

#[test]
fn button_level_follows_press_and_release() {
    let mut sched = Scheduler::start();
    sched.enter_critical();
    assert!(sched.read_button());
    sched.exit_critical();
    sched.signal_edge();
    sched.release_button();
    sched.enter_critical();
    assert!(sched.read_button());
    // a release is no falling edge: the latch state is untouched
    assert!(sched.read_pending());
    sched.exit_critical();
}

#[test]
fn resource_table_shares_exactly_the_button_pair() {
    assert_eq!(
        SharedResourceManager::assignment(PeripheralId::ButtonInput),
        Ownership::SharedWithCeiling(SHARED_CEILING)
    );
    assert_eq!(
        SharedResourceManager::assignment(PeripheralId::InterruptController),
        Ownership::SharedWithCeiling(SHARED_CEILING)
    );
    for owned in [
        PeripheralId::Led,
        PeripheralId::AuxLed,
        PeripheralId::Delay,
        PeripheralId::LogSink,
        PeripheralId::StripBus,
    ] {
        assert_eq!(
            SharedResourceManager::assignment(owned),
            Ownership::OwnedBy(TaskId::AnimationLoop)
        );
    }
}

#[test]
fn access_rule_enforces_the_ceiling() {
    // the handler reaches the shared pair at its own priority
    assert!(SharedResourceManager::access_allowed(
        PeripheralId::InterruptController,
        TaskId::ButtonHandler,
        HANDLER_PRIORITY
    ));
    // the loop reaches it only once raised to the ceiling
    assert!(!SharedResourceManager::access_allowed(
        PeripheralId::ButtonInput,
        TaskId::AnimationLoop,
        IDLE_PRIORITY
    ));
    assert!(SharedResourceManager::access_allowed(
        PeripheralId::ButtonInput,
        TaskId::AnimationLoop,
        SHARED_CEILING
    ));
    // single-owner handles go by ownership, not priority
    assert!(SharedResourceManager::access_allowed(
        PeripheralId::StripBus,
        TaskId::AnimationLoop,
        IDLE_PRIORITY
    ));
    assert!(!SharedResourceManager::access_allowed(
        PeripheralId::StripBus,
        TaskId::ButtonHandler,
        HANDLER_PRIORITY
    ));
}

#[test]
fn idle_step_transmits_then_rotates() {
    let palette = Palette::stock();
    let mut board = bootstrap(true, true, &palette).unwrap();
    let before = board.engine.frame().as_colors().clone();

    assert_eq!(idle_step(&mut board.engine, &mut board.bus), Ok(()));
    assert_eq!(board.bus.queued_len(), BUS_WINDOW);
    let after = board.engine.frame().as_colors().clone();
    assert_eq!(after[0], before[1]);
    assert_eq!(after[before.len() - 1], before[0]);

    // the window still holds the first frame: a second pass cannot be
    // gap-free, reports the overrun, and leaves frame and bus untouched
    assert_eq!(
        idle_step(&mut board.engine, &mut board.bus),
        Err(TransmissionError::Overrun)
    );
    assert_eq!(board.engine.frame().as_colors().clone(), after);
    assert_eq!(board.bus.queued_len(), BUS_WINDOW);

    // once the hardware drained the window the loop goes on
    let sent = board.bus.drain();
    assert_eq!(sent.len(), before.len() * BYTES_PER_COLOR);
    assert_eq!(idle_step(&mut board.engine, &mut board.bus), Ok(()));
}
