use sixtyfps_eventloop::dispatch::{
    flow_after_animations, flow_after_timers, should_check_animations, window_target_source,
    Action, ControlFlow, CustomEvent, EventLoopState, EventOutcome, IdleLoop, LoopEvent, Platform,
    WindowTargetSource,
};
use sixtyfps_eventloop::input::{
    ElementState, InternalKeyCode, KeyStroke, KeyText, MouseEventType, TouchPhase,
    VirtualKeyCode,
};
use sixtyfps_eventloop::modifiers::KeyboardModifiers;

type Pos = (f32, f32);
type Event = LoopEvent<Pos, f64, u32>;
type Act = Action<Pos, f64, u32>;

const DESKTOP: Platform = Platform { command_is_control: false, cancel_press_on_cursor_leave: false };
const MACOS: Platform = Platform { command_is_control: true, cancel_press_on_cursor_leave: false };
const WEB: Platform = Platform { command_is_control: false, cancel_press_on_cursor_leave: true };

fn fresh() -> EventLoopState<Pos> {
    EventLoopState::new((0.0, 0.0))
}

fn handle(state: &mut EventLoopState<Pos>, event: Event, alive: bool) -> EventOutcome<Pos, f64, u32> {
    state.handle_event(&DESKTOP, event, alive)
}

#[test]
fn new_state_is_released_at_origin() {
    let state = fresh();
    assert_eq!(state.cursor_pos, (0.0, 0.0));
    assert!(!state.pressed);
}

#[test]
fn close_request_exits_without_actions() {
    let mut state = fresh();
    let out = handle(&mut state, LoopEvent::CloseRequested { window: 1 }, true);
    assert!(out.exit);
    assert!(out.actions.is_empty());
}

#[test]
fn exit_event_exits() {
    let mut state = fresh();
    let out = handle(&mut state, LoopEvent::User(CustomEvent::Exit), false);
    assert!(out.exit);
    assert!(out.actions.is_empty());
}

#[test]
fn redraw_request_draws_live_window() {
    let mut state = fresh();
    let out = handle(&mut state, LoopEvent::RedrawRequested { window: 4 }, true);
    assert!(!out.exit);
    assert_eq!(out.actions, vec![Act::UpdateAnimations, Act::Draw { window: 4 }]);
    let out = handle(&mut state, LoopEvent::RedrawRequested { window: 4 }, false);
    assert_eq!(out.actions, vec![Act::UpdateAnimations]);
}

#[test]
fn resize_refreshes_scale_then_sets_geometry() {
    let mut state = fresh();
    let out = handle(&mut state, LoopEvent::Resized { window: 2, width: 800, height: 600 }, true);
    assert_eq!(
        out.actions,
        vec![
            Act::RefreshScaleFactor { window: 2 },
            Act::SetGeometry { window: 2, width: 800, height: 600 },
        ]
    );
    let out = handle(&mut state, LoopEvent::Resized { window: 2, width: 800, height: 600 }, false);
    assert!(out.actions.is_empty());
}

#[test]
fn scale_factor_change_sets_geometry_then_scale() {
    let mut state = fresh();
    let out = handle(
        &mut state,
        LoopEvent::ScaleFactorChanged { window: 2, scale_factor: 2.0, width: 1600, height: 1200 },
        true,
    );
    assert_eq!(
        out.actions,
        vec![
            Act::SetGeometry { window: 2, width: 1600, height: 1200 },
            Act::SetScaleFactor { window: 2, scale_factor: 2.0 },
        ]
    );
}

#[test]
fn button_is_reported_at_last_cursor_position() {
    let mut state = fresh();
    let out = handle(&mut state, LoopEvent::CursorMoved { window: 1, position: (10.5, 20.0) }, true);
    assert_eq!(
        out.actions,
        vec![
            Act::UpdateAnimations,
            Act::MouseInput { window: 1, position: (10.5, 20.0), what: MouseEventType::MouseMoved },
        ]
    );
    assert_eq!(state.cursor_pos, (10.5, 20.0));
    let out = handle(&mut state, LoopEvent::MouseInput { window: 1, button: ElementState::Pressed }, true);
    assert_eq!(
        out.actions,
        vec![
            Act::UpdateAnimations,
            Act::MouseInput { window: 1, position: (10.5, 20.0), what: MouseEventType::MousePressed },
        ]
    );
    assert!(state.pressed);
    let out = handle(&mut state, LoopEvent::MouseInput { window: 1, button: ElementState::Released }, true);
    assert_eq!(
        out.actions[1],
        Act::MouseInput { window: 1, position: (10.5, 20.0), what: MouseEventType::MouseReleased }
    );
    assert!(!state.pressed);
}

#[test]
fn cursor_moves_over_a_dead_window_are_still_remembered() {
    let mut state = fresh();
    let out = handle(&mut state, LoopEvent::CursorMoved { window: 1, position: (3.0, 4.0) }, false);
    assert_eq!(out.actions, vec![Act::UpdateAnimations]);
    assert_eq!(state.cursor_pos, (3.0, 4.0));
}

#[test]
fn button_on_dead_window_changes_nothing() {
    let mut state = fresh();
    let out = handle(&mut state, LoopEvent::MouseInput { window: 1, button: ElementState::Pressed }, false);
    assert_eq!(out.actions, vec![Act::UpdateAnimations]);
    assert!(!state.pressed);
}

#[test]
fn touch_phases() {
    let mut state = fresh();
    let out = handle(
        &mut state,
        LoopEvent::Touch { window: 5, location: (1.0, 2.0), phase: TouchPhase::Started },
        true,
    );
    assert_eq!(
        out.actions,
        vec![
            Act::UpdateAnimations,
            Act::MouseInput { window: 5, position: (1.0, 2.0), what: MouseEventType::MousePressed },
        ]
    );
    assert!(state.pressed);
    // a touch does not move the remembered cursor
    assert_eq!(state.cursor_pos, (0.0, 0.0));
    let out = handle(
        &mut state,
        LoopEvent::Touch { window: 5, location: (3.0, 2.0), phase: TouchPhase::Moved },
        true,
    );
    assert_eq!(
        out.actions[1],
        Act::MouseInput { window: 5, position: (3.0, 2.0), what: MouseEventType::MouseMoved }
    );
    assert!(state.pressed);
    let out = handle(
        &mut state,
        LoopEvent::Touch { window: 5, location: (3.0, 2.0), phase: TouchPhase::Cancelled },
        true,
    );
    assert_eq!(
        out.actions[1],
        Act::MouseInput { window: 5, position: (3.0, 2.0), what: MouseEventType::MouseReleased }
    );
    assert!(!state.pressed);
    handle(&mut state, LoopEvent::Touch { window: 5, location: (0.0, 0.0), phase: TouchPhase::Started }, true);
    handle(&mut state, LoopEvent::Touch { window: 5, location: (0.0, 0.0), phase: TouchPhase::Ended }, true);
    assert!(!state.pressed);
}

#[test]
fn cursor_leave_cancels_press_on_the_web_only() {
    let mut state = fresh();
    handle(&mut state, LoopEvent::CursorMoved { window: 1, position: (7.0, 8.0) }, true);
    handle(&mut state, LoopEvent::MouseInput { window: 1, button: ElementState::Pressed }, true);
    let out = state.handle_event(&DESKTOP, Event::CursorLeft { window: 1 }, true);
    assert!(out.actions.is_empty());
    assert!(state.pressed);
    let out = state.handle_event(&WEB, Event::CursorLeft { window: 1 }, true);
    assert_eq!(
        out.actions,
        vec![
            Act::UpdateAnimations,
            Act::MouseInput { window: 1, position: (7.0, 8.0), what: MouseEventType::MouseExit },
        ]
    );
    assert!(!state.pressed);
    // not pressed any more: leaving again does nothing
    let out = state.handle_event(&WEB, Event::CursorLeft { window: 1 }, true);
    assert!(out.actions.is_empty());
}

#[test]
fn cursor_leave_of_dead_window_keeps_press() {
    let mut state = fresh();
    handle(&mut state, LoopEvent::MouseInput { window: 1, button: ElementState::Pressed }, true);
    let out = state.handle_event(&WEB, Event::CursorLeft { window: 1 }, false);
    assert_eq!(out.actions, vec![Act::UpdateAnimations]);
    assert!(state.pressed);
}

#[test]
fn special_keys_are_forwarded() {
    let mut state = fresh();
    let out = handle(
        &mut state,
        LoopEvent::KeyboardInput { window: 3, key: Some(VirtualKeyCode::Escape), key_state: ElementState::Pressed },
        true,
    );
    assert_eq!(
        out.actions,
        vec![
            Act::UpdateAnimations,
            Act::KeyInput {
                window: 3,
                text: KeyText::Key(InternalKeyCode::Escape),
                stroke: KeyStroke::Press,
            },
        ]
    );
    let out = handle(
        &mut state,
        LoopEvent::KeyboardInput { window: 3, key: Some(VirtualKeyCode::Left), key_state: ElementState::Released },
        true,
    );
    assert_eq!(
        out.actions[1],
        Act::KeyInput {
            window: 3,
            text: KeyText::Key(InternalKeyCode::Left),
            stroke: KeyStroke::Release,
        }
    );
}

#[test]
fn other_keys_only_update_animations() {
    let mut state = fresh();
    let out = handle(
        &mut state,
        LoopEvent::KeyboardInput { window: 3, key: Some(VirtualKeyCode::Other), key_state: ElementState::Pressed },
        true,
    );
    assert_eq!(out.actions, vec![Act::UpdateAnimations]);
    let out = handle(
        &mut state,
        LoopEvent::KeyboardInput { window: 3, key: None, key_state: ElementState::Pressed },
        true,
    );
    assert_eq!(out.actions, vec![Act::UpdateAnimations]);
}

#[test]
fn typed_character_presses_then_releases() {
    let mut state = fresh();
    let out = handle(&mut state, LoopEvent::ReceivedCharacter { window: 6, character: 'a' }, true);
    assert_eq!(
        out.actions,
        vec![
            Act::UpdateAnimations,
            Act::KeyInput {
                window: 6,
                text: KeyText::Character('a'),
                stroke: KeyStroke::PressThenRelease,
            },
        ]
    );
    let out = handle(&mut state, LoopEvent::ReceivedCharacter { window: 6, character: 'a' }, false);
    assert_eq!(out.actions, vec![Act::UpdateAnimations]);
}

#[test]
fn control_characters_are_ignored() {
    let mut state = fresh();
    for c in ['\u{8}', '\r', '\u{1b}', '\u{7f}'] {
        let out = handle(&mut state, LoopEvent::ReceivedCharacter { window: 6, character: c }, true);
        assert!(out.actions.is_empty());
        assert!(!out.exit);
    }
}

#[test]
fn modifiers_change_per_platform() {
    let bits = winit::event::ModifiersState::CTRL.bits() | winit::event::ModifiersState::SHIFT.bits();
    let mut state = fresh();
    let out = state.handle_event(&DESKTOP, Event::ModifiersChanged { window: 2, modifiers: bits }, true);
    assert_eq!(
        out.actions,
        vec![Act::SetKeyboardModifiers {
            window: 2,
            modifiers: KeyboardModifiers { shift: true, alt: false, control: true, meta: false },
        }]
    );
    let out = state.handle_event(&MACOS, Event::ModifiersChanged { window: 2, modifiers: bits }, true);
    assert_eq!(
        out.actions,
        vec![Act::SetKeyboardModifiers {
            window: 2,
            modifiers: KeyboardModifiers { shift: true, alt: false, control: false, meta: true },
        }]
    );
    let out = state.handle_event(&MACOS, Event::ModifiersChanged { window: 2, modifiers: bits }, false);
    assert!(out.actions.is_empty());
}

#[test]
fn focus_is_forwarded() {
    let mut state = fresh();
    let out = handle(&mut state, LoopEvent::Focused { window: 8, focused: true }, true);
    assert_eq!(out.actions, vec![Act::SetFocus { window: 8, have_focus: true }]);
    let out = handle(&mut state, LoopEvent::Focused { window: 8, focused: false }, true);
    assert_eq!(out.actions, vec![Act::SetFocus { window: 8, have_focus: false }]);
    let out = handle(&mut state, LoopEvent::Focused { window: 8, focused: true }, false);
    assert!(out.actions.is_empty());
}

#[test]
fn custom_events() {
    let mut state = fresh();
    let out = handle(&mut state, LoopEvent::User(CustomEvent::UpdateWindowProperties(42)), false);
    assert_eq!(out.actions, vec![Act::UpdateWindowProperties(42)]);
    assert!(!out.exit);
    let out = handle(&mut state, LoopEvent::User(CustomEvent::FontsLoaded), false);
    assert_eq!(out.actions, vec![Act::RequestRedrawAll]);
    let out = handle(&mut state, LoopEvent::User(CustomEvent::WakeUpAndPoll), false);
    assert!(out.actions.is_empty());
    assert!(!out.exit);
}

#[test]
fn other_events_do_nothing() {
    let mut state = fresh();
    let out = handle(&mut state, LoopEvent::Other, true);
    assert!(out.actions.is_empty());
    assert!(!out.exit);
    assert_eq!(state, fresh());
}

#[test]
fn control_flow_of_a_turn() {
    assert_eq!(flow_after_animations::<u64>(true, true), (ControlFlow::Exit, false));
    assert_eq!(flow_after_animations::<u64>(true, false), (ControlFlow::Exit, false));
    assert_eq!(flow_after_animations::<u64>(false, true), (ControlFlow::Poll, true));
    assert_eq!(flow_after_animations::<u64>(false, false), (ControlFlow::Wait, false));

    assert_eq!(flow_after_timers(ControlFlow::Wait, Some(17u64)), ControlFlow::WaitUntil(17));
    assert_eq!(flow_after_timers::<u64>(ControlFlow::Wait, None), ControlFlow::Wait);
    assert_eq!(flow_after_timers(ControlFlow::Poll, Some(17u64)), ControlFlow::Poll);
    assert_eq!(flow_after_timers(ControlFlow::Exit, Some(17u64)), ControlFlow::Exit);
}

#[test]
fn exit_wins_over_animations_and_timers() {
    let (flow, redraw) = flow_after_animations::<u64>(true, true);
    assert!(!redraw);
    assert_eq!(flow_after_timers(flow, Some(5)), ControlFlow::Exit);
}

#[test]
fn window_target_sources() {
    assert_eq!(window_target_source(true, true), WindowTargetSource::Running);
    assert_eq!(window_target_source(true, false), WindowTargetSource::Running);
    assert_eq!(window_target_source(false, true), WindowTargetSource::Idle);
    assert_eq!(window_target_source(false, false), WindowTargetSource::CreateIdle);
}

#[test]
fn animations_are_checked_only_when_the_loop_goes_on() {
    assert!(should_check_animations(false));
    assert!(!should_check_animations(true));
}

#[test]
fn idle_loop_is_kept_and_reused() {
    let mut idle = IdleLoop::new(1u32);
    assert_eq!(idle.stored(), Some(&1));
    // a caller outside the loop uses the kept loop and creates none
    assert_eq!(idle.target_source(false), WindowTargetSource::Idle);
    assert_eq!(idle.target_source(false), WindowTargetSource::Idle);
    assert_eq!(idle.stored(), Some(&1));
    // while the loop runs, callers use the running loop
    assert_eq!(idle.target_source(true), WindowTargetSource::Running);
    // run takes the kept loop
    assert_eq!(idle.take_for_run(), Some(1));
    assert_eq!(idle.stored(), None);
    assert_eq!(idle.take_for_run(), None);
    // after run a caller creates a loop and keeps it; the next one reuses it
    assert_eq!(idle.target_source(false), WindowTargetSource::CreateIdle);
    idle.store(2);
    assert_eq!(idle.target_source(false), WindowTargetSource::Idle);
    assert_eq!(idle.stored(), Some(&2));
}
