use frc_interface::buttons::ButtonState;
use frc_interface::buttons::LogicalButton;
use frc_interface::frame::HardwareGamepadFrame;
use frc_interface::session::DeviceSession;
use frc_interface::session::SessionError;
use frc_interface::session::SessionStage;
use frc_interface::session::SessionStep;
use frc_interface::update_loop::LoopAction;
use frc_interface::update_loop::LoopPhase;
use frc_interface::update_loop::UpdateLoop;
use frc_interface::virtual_controller::VirtualController;

fn drive_session(connect: bool, plug_in: bool, wait_ready: bool) -> DeviceSession {
    let mut session = DeviceSession::new();
    while let Some(step) = session.next_step() {
        let succeeded = match step {
            SessionStep::Connect => connect,
            SessionStep::PlugIn => plug_in,
            SessionStep::WaitReady => wait_ready,
        };
        let _ = session.advance(succeeded);
    }
    session
}

fn active_bridge() -> (VirtualController, UpdateLoop) {
    let session = drive_session(true, true, true);
    let mut controller = VirtualController::new();
    assert!(controller.initialize(session));
    let mut task = UpdateLoop::new();
    assert!(task.start(controller.session()));
    (controller, task)
}

fn tick(controller: &VirtualController, task: &mut UpdateLoop) -> LoopAction {
    let running = controller.is_running();
    let snapshot = controller.snapshot();
    task.tick(running, &snapshot)
}

#[test]
fn climb_pressed_and_released_before_any_tick_pushes_nothing() {
    let (mut controller, mut task) = active_bridge();
    assert!(controller.set_button("climb", true));
    assert!(controller.set_button("climb", false));
    assert!(!controller.snapshot().is_pressed(LogicalButton::Climb));
    assert_eq!(tick(&controller, &mut task), LoopAction::Wait);
}

#[test]
fn climb_read_between_press_and_release_pushes_one_frame_with_its_bit() {
    let (mut controller, mut task) = active_bridge();
    assert!(controller.set_button("climb", true));
    let action = tick(&controller, &mut task);
    assert!(controller.set_button("climb", false));
    assert!(!controller.snapshot().is_pressed(LogicalButton::Climb));
    match action {
        LoopAction::Push(frame) => {
            assert_eq!(frame.buttons, 0x0010);
            assert!(frame.is_held(LogicalButton::Climb));
        }
        other => panic!("expected one pushed frame, got {:?}", other),
    }
}

#[test]
fn climb_press_and_release_coalesce_either_way() {
    for read_between in [true, false] {
        let (mut controller, mut task) = active_bridge();
        let mut pushed = Vec::new();
        assert!(controller.set_button("climb", true));
        if read_between {
            if let LoopAction::Push(frame) = tick(&controller, &mut task) {
                pushed.push(frame);
            }
        }
        assert!(controller.set_button("climb", false));
        assert!(!controller.snapshot().is_pressed(LogicalButton::Climb));
        if !read_between {
            if let LoopAction::Push(frame) = tick(&controller, &mut task) {
                pushed.push(frame);
            }
        }
        if read_between {
            assert_eq!(pushed.len(), 1);
            assert_eq!(pushed[0].buttons, 0x0010);
        } else {
            assert_eq!(pushed.len(), 0);
        }
    }
}

#[test]
fn initialize_without_bus_driver_returns_false_and_starts_nothing() {
    let mut session = DeviceSession::new();
    assert_eq!(session.next_step(), Some(SessionStep::Connect));
    assert_eq!(session.advance(false), Err(SessionError::ConnectFailed));
    assert_eq!(session.next_step(), None);

    let mut task = UpdateLoop::new();
    assert!(!task.start(&session));
    assert_eq!(task.phase(), LoopPhase::Idle);

    let mut controller = VirtualController::new();
    assert!(!controller.initialize(session));
    assert!(!controller.is_running());
    assert_eq!(controller.session().stage(), SessionStage::Empty);
    assert!(!task.start(controller.session()));
    assert_eq!(task.phase(), LoopPhase::Idle);

    assert!(controller.set_button("coral", true));
    assert!(controller.snapshot().is_pressed(LogicalButton::Coral));
    assert!(!controller.is_running());
    assert_eq!(tick(&controller, &mut task), LoopAction::Exit);
}

#[test]
fn initialize_fails_when_plug_in_or_wait_fails() {
    for (plug_in, wait_ready) in [(false, true), (true, false), (false, false)] {
        let session = drive_session(true, plug_in, wait_ready);
        assert_eq!(session.stage(), SessionStage::Closed);
        let mut controller = VirtualController::new();
        assert!(!controller.initialize(session));
        assert!(!controller.is_running());
        assert!(controller.set_button("zero", true));
        assert!(controller.snapshot().is_pressed(LogicalButton::Zero));
    }
}

#[test]
fn coral_and_intake_alga_pressed_before_any_tick_are_pushed_together() {
    let (mut controller, mut task) = active_bridge();
    assert!(controller.set_button("coral", true));
    assert!(controller.set_button("intake_alga", true));
    match tick(&controller, &mut task) {
        LoopAction::Push(frame) => {
            assert_eq!(frame.buttons, 0x2000 | 0x0100);
            assert_eq!(frame.buttons.count_ones(), 2);
            assert!(frame.is_held(LogicalButton::Coral));
            assert!(frame.is_held(LogicalButton::IntakeAlga));
            assert_eq!(frame.left_trigger, 0);
            assert_eq!(frame.right_trigger, 0);
            assert_eq!(frame.thumb_lx, 0);
            assert_eq!(frame.thumb_ly, 0);
            assert_eq!(frame.thumb_rx, 0);
            assert_eq!(frame.thumb_ry, 0);
        }
        other => panic!("expected one pushed frame, got {:?}", other),
    }
    assert_eq!(tick(&controller, &mut task), LoopAction::Wait);
}

#[test]
fn shutdown_stops_the_loop_at_its_next_tick() {
    let (mut controller, mut task) = active_bridge();
    assert!(controller.set_button("high", true));
    assert!(matches!(tick(&controller, &mut task), LoopAction::Push(_)));
    assert!(controller.set_button("low", true));
    assert!(controller.shutdown());
    assert_eq!(tick(&controller, &mut task), LoopAction::Exit);
    assert_eq!(task.phase(), LoopPhase::Stopping);
    task.finish();
    assert_eq!(task.phase(), LoopPhase::Stopped);
    assert_eq!(controller.session().stage(), SessionStage::Closed);
    assert!(!controller.shutdown());
    assert_eq!(tick(&controller, &mut task), LoopAction::Exit);
}

#[test]
fn writes_between_two_ticks_are_coalesced_into_one_frame() {
    let (mut controller, mut task) = active_bridge();
    assert_eq!(tick(&controller, &mut task), LoopAction::Wait);
    assert!(controller.set_button("mid", true));
    assert!(controller.set_button("mid", false));
    assert!(controller.set_button("mid", true));
    assert!(controller.set_button("drop_alga", true));
    assert!(controller.set_button("intake", true));
    assert!(controller.set_button("intake", false));
    let expected = HardwareGamepadFrame::from_state(&ButtonState {
        climb: false,
        zero: false,
        intake: false,
        high: false,
        mid: true,
        low: false,
        coral: false,
        intake_alga: false,
        drop_alga: true,
    });
    assert_eq!(expected.buttons, 0x0204);
    assert_eq!(tick(&controller, &mut task), LoopAction::Push(expected));
    assert_eq!(tick(&controller, &mut task), LoopAction::Wait);
}

#[test]
fn loop_pushes_only_while_the_session_is_ready() {
    let (mut controller, mut task) = active_bridge();
    assert!(controller.set_button("coral", true));
    let action = tick(&controller, &mut task);
    assert!(matches!(action, LoopAction::Push(_)));
    assert_eq!(controller.session().stage(), SessionStage::Ready);
    assert!(controller.shutdown());
    assert!(controller.set_button("coral", false));
    for _ in 0..5 {
        assert!(!matches!(tick(&controller, &mut task), LoopAction::Push(_)));
    }
}

#[test]
fn one_loop_serves_a_controller_that_is_initialized_twice() {
    let (mut controller, mut task) = active_bridge();
    let again = controller.initialize(drive_session(true, true, true));
    assert!(!again);
    let mut second = UpdateLoop::new();
    if again {
        assert!(second.start(controller.session()));
    }
    assert_eq!(second.phase(), LoopPhase::Idle);
    assert!(controller.set_button("high", true));
    assert!(matches!(tick(&controller, &mut task), LoopAction::Push(_)));
    assert_eq!(tick(&controller, &mut second), LoopAction::Exit);
    assert!(controller.shutdown());
    assert_eq!(tick(&controller, &mut task), LoopAction::Exit);
    task.finish();
    assert_eq!(task.phase(), LoopPhase::Stopped);
    assert_eq!(controller.session().stage(), SessionStage::Closed);
}
