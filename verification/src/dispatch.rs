//! The decisions of the event loop: for each event, what happens to the
//! windows and to the loop's control flow.
//!
//! One turn of the loop goes: the caller looks up the window that the event
//! concerns and tells `handle_event` whether it is still alive; it performs the
//! returned actions; it asks the animation driver whether animations run and
//! lets `flow_after_animations` decide; it fires due timers; and it hands the
//! next timer's deadline to `flow_after_timers`, which gives the control flow
//! to hand back to the windowing system.
use crate::input::{
    button_mouse_event, internal_key_code, is_control, key_stroke, spec_button_mouse_event,
    spec_internal_key_code, spec_is_control, spec_key_events, spec_key_stroke, spec_touch_mouse_event,
    touch_mouse_event, ElementState, KeyEventType, KeyStroke, KeyText, MouseEventType, TouchPhase,
    VirtualKeyCode,
};
use crate::modifiers::{
    keyboard_modifiers, lemma_each_modifier_is_its_own_bit, spec_keyboard_modifiers,
    KeyboardModifiers,
};
use vstd::prelude::*;

verus! {

/// Events that the runtime sends to its own event loop, beside those of the
/// windowing system. `H` is the handle of a window whose properties changed.
#[derive(Debug, PartialEq, Eq)]
pub enum CustomEvent<H> {
    /// Request for the event loop to wake up and poll (used on the web, for
    /// example to request an animation frame).
    WakeUpAndPoll,
    /// The web fonts finished loading: every window has to be redrawn.
    FontsLoaded,
    /// The properties of a window (title, size constraints) changed.
    UpdateWindowProperties(H),
    /// The event loop is to stop.
    Exit,
}

/// An event delivered to the loop. `window` is the windowing system's id of the
/// window that the event concerns; `P` is a position in physical pixels and `F`
/// a scale factor, which the loop passes on without looking into them.
#[derive(Debug, PartialEq)]
pub enum LoopEvent<P, F, H> {
    CloseRequested { window: u64 },
    RedrawRequested { window: u64 },
    Resized { window: u64, width: u32, height: u32 },
    ScaleFactorChanged { window: u64, scale_factor: F, width: u32, height: u32 },
    MouseInput { window: u64, button: ElementState },
    Touch { window: u64, location: P, phase: TouchPhase },
    CursorMoved { window: u64, position: P },
    CursorLeft { window: u64 },
    KeyboardInput { window: u64, key: Option<VirtualKeyCode>, key_state: ElementState },
    ReceivedCharacter { window: u64, character: char },
    ModifiersChanged { window: u64, modifiers: u32 },
    Focused { window: u64, focused: bool },
    User(CustomEvent<H>),
    /// Any event that the loop does not react to.
    Other,
}

/// What the caller has to do after an event, in order.
#[derive(Debug, PartialEq)]
pub enum Action<P, F, H> {
    /// Advance the running animations.
    UpdateAnimations,
    /// Draw the window.
    Draw { window: u64 },
    /// Read the window's scale factor again from the windowing system.
    RefreshScaleFactor { window: u64 },
    /// Give the window a new size, in physical pixels.
    SetGeometry { window: u64, width: u32, height: u32 },
    /// Give the window a new scale factor.
    SetScaleFactor { window: u64, scale_factor: F },
    /// Hand a mouse event at `position` to the window.
    MouseInput { window: u64, position: P, what: MouseEventType },
    /// Hand the key events of `stroke` to the window, in order, all with the
    /// window's modifiers as read once before the first of them.
    KeyInput { window: u64, text: KeyText, stroke: KeyStroke },
    /// Store the modifiers that are held down in the window.
    SetKeyboardModifiers { window: u64, modifiers: KeyboardModifiers },
    /// Tell the window whether it has the focus.
    SetFocus { window: u64, have_focus: bool },
    /// Apply the changed properties of the window behind the handle.
    UpdateWindowProperties(H),
    /// Ask every registered window to be redrawn.
    RequestRedrawAll,
}

/// What differs between the platforms in how events are handled.
#[derive(Clone, Copy, Debug, PartialEq, Eq, Structural)]
pub struct Platform {
    /// The command key acts as control, and control as meta (macOS).
    pub command_is_control: bool,
    /// Leaving the window while the pointer is pressed cancels the press, since
    /// no release will be reported (an HTML canvas on the web).
    pub cancel_press_on_cursor_leave: bool,
}

/// What the loop remembers from one event to the next.
#[derive(Debug, PartialEq)]
pub struct EventLoopState<P> {
    /// The last seen cursor position, in physical pixels.
    pub cursor_pos: P,
    /// Whether the pointer is pressed.
    pub pressed: bool,
}

/// The decision for one event.
pub struct EventOutcome<P, F, H> {
    /// The event loop is to stop.
    pub exit: bool,
    /// What has to be done, in order.
    pub actions: Vec<Action<P, F, H>>,
}

/// The control flow handed back to the windowing system after a turn of the
/// loop; `T` is a point in time.
#[derive(Debug, PartialEq, Eq)]
pub enum ControlFlow<T> {
    /// Start the next turn at once.
    Poll,
    /// Wait for the next event.
    Wait,
    /// Wait for the next event, or until the given time.
    WaitUntil(T),
    /// Stop the loop.
    Exit,
}

/// Where a caller that needs the windowing system's window target gets it from.
#[derive(Clone, Copy, Debug, PartialEq, Eq, Structural)]
pub enum WindowTargetSource {
    /// The target of the event loop that is running now.
    Running,
    /// The target of the event loop that was created but does not run yet.
    Idle,
    /// A new event loop, to be created and kept until the loop runs.
    CreateIdle,
}

/// The actions that concern a window, if it is alive; none otherwise.
pub open spec fn if_alive<P, F, H>(alive: bool, actions: Seq<Action<P, F, H>>) -> Seq<Action<P, F, H>> {
    if alive {
        actions
    } else {
        Seq::empty()
    }
}

/// Whether the pointer is pressed after a touch in the given phase: a touch that
/// starts presses, one that ends or is cancelled releases, and a move keeps the
/// state.
pub open spec fn touch_pressed(phase: TouchPhase, pressed: bool) -> bool {
    match phase {
        TouchPhase::Started => true,
        TouchPhase::Ended => false,
        TouchPhase::Cancelled => false,
        TouchPhase::Moved => pressed,
    }
}

/// The decision for `event` in `state`, where `alive` tells whether a live
/// window is registered under the event's window id: the next state, whether
/// the loop is to stop, and the actions, in order.
pub open spec fn event_step<P, F, H>(
    platform: Platform,
    state: EventLoopState<P>,
    event: LoopEvent<P, F, H>,
    alive: bool,
) -> (EventLoopState<P>, bool, Seq<Action<P, F, H>>) {
    match event {
        LoopEvent::CloseRequested { .. } => (state, true, Seq::empty()),
        LoopEvent::RedrawRequested { window } => (
            state,
            false,
            seq![Action::UpdateAnimations] + if_alive(alive, seq![Action::Draw { window }]),
        ),
        LoopEvent::Resized { window, width, height } => (
            state,
            false,
            if_alive(
                alive,
                seq![
                    Action::RefreshScaleFactor { window },
                    Action::SetGeometry { window, width, height },
                ],
            ),
        ),
        LoopEvent::ScaleFactorChanged { window, scale_factor, width, height } => (
            state,
            false,
            if_alive(
                alive,
                seq![
                    Action::SetGeometry { window, width, height },
                    Action::SetScaleFactor { window, scale_factor },
                ],
            ),
        ),
        LoopEvent::MouseInput { window, button } => (
            EventLoopState {
                pressed: if alive { button == ElementState::Pressed } else { state.pressed },
                ..state
            },
            false,
            seq![Action::UpdateAnimations] + if_alive(
                alive,
                seq![
                    Action::MouseInput {
                        window,
                        position: state.cursor_pos,
                        what: spec_button_mouse_event(button),
                    },
                ],
            ),
        ),
        LoopEvent::Touch { window, location, phase } => (
            EventLoopState {
                pressed: if alive { touch_pressed(phase, state.pressed) } else { state.pressed },
                ..state
            },
            false,
            seq![Action::UpdateAnimations] + if_alive(
                alive,
                seq![
                    Action::MouseInput {
                        window,
                        position: location,
                        what: spec_touch_mouse_event(phase),
                    },
                ],
            ),
        ),
        LoopEvent::CursorMoved { window, position } => (
            EventLoopState { cursor_pos: position, ..state },
            false,
            seq![Action::UpdateAnimations] + if_alive(
                alive,
                seq![
                    Action::MouseInput { window, position, what: MouseEventType::MouseMoved },
                ],
            ),
        ),
        LoopEvent::CursorLeft { window } => if platform.cancel_press_on_cursor_leave
            && state.pressed {
            (
                EventLoopState { pressed: !alive, ..state },
                false,
                seq![Action::UpdateAnimations] + if_alive(
                    alive,
                    seq![
                        Action::MouseInput {
                            window,
                            position: state.cursor_pos,
                            what: MouseEventType::MouseExit,
                        },
                    ],
                ),
            )
        } else {
            (state, false, Seq::empty())
        },
        LoopEvent::KeyboardInput { window, key, key_state } => (
            state,
            false,
            seq![Action::UpdateAnimations] + match key {
                Some(k) => match spec_internal_key_code(k) {
                    Some(code) => if_alive(
                        alive,
                        seq![
                            Action::KeyInput {
                                window,
                                text: KeyText::Key(code),
                                stroke: spec_key_stroke(key_state),
                            },
                        ],
                    ),
                    None => Seq::empty(),
                },
                None => Seq::empty(),
            },
        ),
        LoopEvent::ReceivedCharacter { window, character } => if spec_is_control(character) {
            (state, false, Seq::empty())
        } else {
            (
                state,
                false,
                seq![Action::UpdateAnimations] + if_alive(
                    alive,
                    seq![
                        Action::KeyInput {
                            window,
                            text: KeyText::Character(character),
                            stroke: KeyStroke::PressThenRelease,
                        },
                    ],
                ),
            )
        },
        LoopEvent::ModifiersChanged { window, modifiers } => (
            state,
            false,
            if_alive(
                alive,
                seq![
                    Action::SetKeyboardModifiers {
                        window,
                        modifiers: spec_keyboard_modifiers(modifiers, platform.command_is_control),
                    },
                ],
            ),
        ),
        LoopEvent::Focused { window, focused } => (
            state,
            false,
            if_alive(alive, seq![Action::SetFocus { window, have_focus: focused }]),
        ),
        LoopEvent::User(custom) => match custom {
            CustomEvent::UpdateWindowProperties(handle) => (
                state,
                false,
                seq![Action::UpdateWindowProperties(handle)],
            ),
            CustomEvent::FontsLoaded => (state, false, seq![Action::RequestRedrawAll]),
            CustomEvent::WakeUpAndPoll => (state, false, Seq::empty()),
            CustomEvent::Exit => (state, true, Seq::empty()),
        },
        LoopEvent::Other => (state, false, Seq::empty()),
    }
}

impl<P: Copy> EventLoopState<P> {
    /// The state before the first event: the cursor at `cursor_pos`, nothing
    /// pressed.
    pub fn new(cursor_pos: P) -> (state: Self)
        ensures
            state.cursor_pos == cursor_pos,
            !state.pressed,
    {
        EventLoopState { cursor_pos, pressed: false }
    }

    /// Decides what `event` does (see `event_step`). `window_alive` tells
    /// whether a live window is registered under the event's window id.
    pub fn handle_event<F, H>(
        &mut self,
        platform: &Platform,
        event: LoopEvent<P, F, H>,
        window_alive: bool,
    ) -> (outcome: EventOutcome<P, F, H>)
        ensures
            *final(self) == event_step(*platform, *old(self), event, window_alive).0,
            outcome.exit == event_step(*platform, *old(self), event, window_alive).1,
            outcome.actions@ == event_step(*platform, *old(self), event, window_alive).2,
    {
        let ghost old_state = *self;
        let ghost spec_event = event;
        let mut actions: Vec<Action<P, F, H>> = Vec::new();
        let mut exit = false;
        match event {
            LoopEvent::CloseRequested { .. } => {
                exit = true;
            },
            LoopEvent::RedrawRequested { window } => {
                actions.push(Action::UpdateAnimations);
                if window_alive {
                    actions.push(Action::Draw { window });
                }
            },
            LoopEvent::Resized { window, width, height } => {
                if window_alive {
                    actions.push(Action::RefreshScaleFactor { window });
                    actions.push(Action::SetGeometry { window, width, height });
                }
            },
            LoopEvent::ScaleFactorChanged { window, scale_factor, width, height } => {
                if window_alive {
                    actions.push(Action::SetGeometry { window, width, height });
                    actions.push(Action::SetScaleFactor { window, scale_factor });
                }
            },
            LoopEvent::MouseInput { window, button } => {
                actions.push(Action::UpdateAnimations);
                if window_alive {
                    self.pressed = match button {
                        ElementState::Pressed => true,
                        ElementState::Released => false,
                    };
                    actions.push(
                        Action::MouseInput {
                            window,
                            position: self.cursor_pos,
                            what: button_mouse_event(button),
                        },
                    );
                }
            },
            LoopEvent::Touch { window, location, phase } => {
                actions.push(Action::UpdateAnimations);
                if window_alive {
                    match phase {
                        TouchPhase::Started => {
                            self.pressed = true;
                        },
                        TouchPhase::Ended | TouchPhase::Cancelled => {
                            self.pressed = false;
                        },
                        TouchPhase::Moved => {},
                    }
                    actions.push(
                        Action::MouseInput {
                            window,
                            position: location,
                            what: touch_mouse_event(phase),
                        },
                    );
                }
            },
            LoopEvent::CursorMoved { window, position } => {
                self.cursor_pos = position;
                actions.push(Action::UpdateAnimations);
                if window_alive {
                    actions.push(
                        Action::MouseInput { window, position, what: MouseEventType::MouseMoved },
                    );
                }
            },
            LoopEvent::CursorLeft { window } => {
                if platform.cancel_press_on_cursor_leave && self.pressed {
                    actions.push(Action::UpdateAnimations);
                    if window_alive {
                        self.pressed = false;
                        actions.push(
                            Action::MouseInput {
                                window,
                                position: self.cursor_pos,
                                what: MouseEventType::MouseExit,
                            },
                        );
                    }
                }
            },
            LoopEvent::KeyboardInput { window, key, key_state } => {
                actions.push(Action::UpdateAnimations);
                if let Some(k) = key {
                    if let Some(code) = internal_key_code(k) {
                        if window_alive {
                            actions.push(
                                Action::KeyInput {
                                    window,
                                    text: KeyText::Key(code),
                                    stroke: key_stroke(key_state),
                                },
                            );
                        }
                    }
                }
            },
            LoopEvent::ReceivedCharacter { window, character } => {
                if !is_control(character) {
                    actions.push(Action::UpdateAnimations);
                    if window_alive {
                        actions.push(
                            Action::KeyInput {
                                window,
                                text: KeyText::Character(character),
                                stroke: KeyStroke::PressThenRelease,
                            },
                        );
                    }
                }
            },
            LoopEvent::ModifiersChanged { window, modifiers } => {
                if window_alive {
                    let modifiers = keyboard_modifiers(modifiers, platform.command_is_control);
                    actions.push(Action::SetKeyboardModifiers { window, modifiers });
                }
            },
            LoopEvent::Focused { window, focused } => {
                if window_alive {
                    actions.push(Action::SetFocus { window, have_focus: focused });
                }
            },
            LoopEvent::User(custom) => {
                match custom {
                    CustomEvent::UpdateWindowProperties(handle) => {
                        actions.push(Action::UpdateWindowProperties(handle));
                    },
                    CustomEvent::FontsLoaded => {
                        actions.push(Action::RequestRedrawAll);
                    },
                    CustomEvent::WakeUpAndPoll => {},
                    CustomEvent::Exit => {
                        exit = true;
                    },
                }
            },
            LoopEvent::Other => {},
        }
        proof {
            let expected = event_step(*platform, old_state, spec_event, window_alive);
            assert(actions@ =~= expected.2);
        }
        EventOutcome { exit, actions }
    }
}

/// Whether the animation driver is asked about running animations after an
/// event: only when the loop goes on, since a loop that stops stops anyway.
pub fn should_check_animations(exit: bool) -> (check: bool)
    ensures
        check == !exit,
{
    !exit
}

/// The control flow once the event is handled, and whether every window is to
/// be redrawn: a loop that is to stop stops; otherwise running animations make
/// the loop poll and redraw every window, and without them the loop waits.
pub open spec fn spec_flow_after_animations<T>(exit: bool, has_active_animations: bool) -> (
    ControlFlow<T>,
    bool,
) {
    if exit {
        (ControlFlow::Exit, false)
    } else if has_active_animations {
        (ControlFlow::Poll, true)
    } else {
        (ControlFlow::Wait, false)
    }
}

/// Decides the control flow after an event (see `spec_flow_after_animations`).
/// `has_active_animations` is what the animation driver reports after the
/// event's actions were performed.
pub fn flow_after_animations<T>(exit: bool, has_active_animations: bool) -> (result: (
    ControlFlow<T>,
    bool,
))
    ensures
        result == spec_flow_after_animations::<T>(exit, has_active_animations),
{
    if exit {
        (ControlFlow::Exit, false)
    } else if has_active_animations {
        (ControlFlow::Poll, true)
    } else {
        (ControlFlow::Wait, false)
    }
}

/// A loop that would wait wakes up at the next timer's deadline, if there is
/// one; every other control flow stays.
pub open spec fn spec_flow_after_timers<T>(flow: ControlFlow<T>, next_timeout: Option<T>) -> ControlFlow<T> {
    match (flow, next_timeout) {
        (ControlFlow::Wait, Some(deadline)) => ControlFlow::WaitUntil(deadline),
        _ => flow,
    }
}

/// Decides the control flow once due timers have fired (see
/// `spec_flow_after_timers`); `next_timeout` is the deadline of the next timer.
pub fn flow_after_timers<T>(flow: ControlFlow<T>, next_timeout: Option<T>) -> (result: ControlFlow<T>)
    ensures
        result == spec_flow_after_timers(flow, next_timeout),
{
    match flow {
        ControlFlow::Wait => match next_timeout {
            Some(deadline) => ControlFlow::WaitUntil(deadline),
            None => ControlFlow::Wait,
        },
        _ => flow,
    }
}

/// The target of the running loop while one runs; otherwise that of the loop
/// created for later, which is created first when there is none.
pub open spec fn spec_window_target_source(running: bool, idle_present: bool) -> WindowTargetSource {
    if running {
        WindowTargetSource::Running
    } else if idle_present {
        WindowTargetSource::Idle
    } else {
        WindowTargetSource::CreateIdle
    }
}

/// Decides where the window target comes from (see
/// `spec_window_target_source`): `running` tells whether the event loop runs,
/// `idle_present` whether a loop created for later is kept.
pub fn window_target_source(running: bool, idle_present: bool) -> (source: WindowTargetSource)
    ensures
        source == spec_window_target_source(running, idle_present),
{
    if running {
        WindowTargetSource::Running
    } else if idle_present {
        WindowTargetSource::Idle
    } else {
        WindowTargetSource::CreateIdle
    }
}


/// The event loop that was created but does not run yet: the windowing
/// system's loop is created before `run` so that windows can be created, and
/// `run` takes it. `L` is that loop.
pub struct IdleLoop<L> {
    stored: Option<L>,
}

impl<L> View for IdleLoop<L> {
    type V = Option<L>;

    closed spec fn view(&self) -> Option<L> {
        self.stored
    }
}

/// The stored loop after a caller asked for the window target, that is after
/// `IdleLoop::target_source` and, where it says `CreateIdle`, `IdleLoop::store`
/// of the loop `fresh` created for the caller: unchanged while the loop runs or
/// when a loop is stored; otherwise `fresh`.
pub open spec fn stored_after_target_call<L>(running: bool, stored: Option<L>, fresh: L) -> Option<L> {
    if spec_window_target_source(running, stored is Some) == WindowTargetSource::CreateIdle {
        Some(fresh)
    } else {
        stored
    }
}

/// The loop whose target a call uses: `None` for the running loop, otherwise
/// the stored loop after the call.
pub open spec fn loop_of_target_call<L>(running: bool, stored: Option<L>, fresh: L) -> Option<L> {
    if running {
        None
    } else {
        stored_after_target_call(running, stored, fresh)
    }
}

impl<L> IdleLoop<L> {
    /// Keeps `instance` until the loop runs.
    pub fn new(instance: L) -> (idle: Self)
        ensures
            idle@ == Some(instance),
    {
        IdleLoop { stored: Some(instance) }
    }

    /// Where the window target comes from for a caller; `running` tells
    /// whether the event loop runs. When it says `CreateIdle`, the caller
    /// creates a loop and hands it to `store`.
    pub fn target_source(&self, running: bool) -> (source: WindowTargetSource)
        ensures
            source == spec_window_target_source(running, self@ is Some),
    {
        window_target_source(running, self.stored.is_some())
    }

    /// Keeps `instance` as the loop for later.
    pub fn store(&mut self, instance: L)
        ensures
            final(self)@ == Some(instance),
    {
        self.stored = Some(instance);
    }

    /// The loop kept for later, if any.
    pub fn stored(&self) -> (instance: Option<&L>)
        ensures
            match instance {
                Some(l) => self@ == Some(*l),
                None => self@ is None,
            },
    {
        match &self.stored {
            Some(l) => Some(l),
            None => None,
        }
    }

    /// Hands the kept loop to `run`, which makes it run; none is kept after.
    pub fn take_for_run(&mut self) -> (instance: Option<L>)
        ensures
            instance == old(self)@,
            final(self)@ is None,
    {
        let instance = self.stored.take();
        instance
    }
}

/// Outside `run` a loop is always kept after a call for the window target;
/// two calls in a row, with no `run` between them, use the same loop, and the
/// second keeps it and creates none. While the loop runs, calls use the running
/// loop's target and leave the kept loop as it is.
pub proof fn lemma_idle_loop_reused<L>(stored: Option<L>, first_fresh: L, second_fresh: L)
    ensures
        stored_after_target_call(false, stored, first_fresh) is Some,
        ({
            let after_first = stored_after_target_call(false, stored, first_fresh);
            &&& spec_window_target_source(false, after_first is Some) == WindowTargetSource::Idle
            &&& stored_after_target_call(false, after_first, second_fresh) == after_first
            &&& loop_of_target_call(false, after_first, second_fresh) == loop_of_target_call(
                false,
                stored,
                first_fresh,
            )
        }),
        stored is Some ==> loop_of_target_call(false, stored, first_fresh) == stored,
        stored_after_target_call(true, stored, first_fresh) == stored,
        loop_of_target_call(true, stored, first_fresh) is None,
{
}

/// After `run` took the kept loop (`take_for_run` leaves none), the next call
/// outside `run` creates a loop, keeps it and uses it.
pub proof fn lemma_loop_recreated_after_run<L>(fresh: L)
    ensures
        spec_window_target_source(false, false) == WindowTargetSource::CreateIdle,
        stored_after_target_call(false, None::<L>, fresh) == Some(fresh),
        loop_of_target_call(false, None::<L>, fresh) == Some(fresh),
{
}

/// The window that an event concerns, if any.
pub open spec fn event_window<P, F, H>(event: LoopEvent<P, F, H>) -> Option<u64> {
    match event {
        LoopEvent::CloseRequested { window } => Some(window),
        LoopEvent::RedrawRequested { window } => Some(window),
        LoopEvent::Resized { window, .. } => Some(window),
        LoopEvent::ScaleFactorChanged { window, .. } => Some(window),
        LoopEvent::MouseInput { window, .. } => Some(window),
        LoopEvent::Touch { window, .. } => Some(window),
        LoopEvent::CursorMoved { window, .. } => Some(window),
        LoopEvent::CursorLeft { window } => Some(window),
        LoopEvent::KeyboardInput { window, .. } => Some(window),
        LoopEvent::ReceivedCharacter { window, .. } => Some(window),
        LoopEvent::ModifiersChanged { window, .. } => Some(window),
        LoopEvent::Focused { window, .. } => Some(window),
        LoopEvent::User(_) => None,
        LoopEvent::Other => None,
    }
}

/// The window that an action is performed on, if it is performed on one.
pub open spec fn action_window<P, F, H>(action: Action<P, F, H>) -> Option<u64> {
    match action {
        Action::Draw { window } => Some(window),
        Action::RefreshScaleFactor { window } => Some(window),
        Action::SetGeometry { window, .. } => Some(window),
        Action::SetScaleFactor { window, .. } => Some(window),
        Action::MouseInput { window, .. } => Some(window),
        Action::KeyInput { window, .. } => Some(window),
        Action::SetKeyboardModifiers { window, .. } => Some(window),
        Action::SetFocus { window, .. } => Some(window),
        Action::UpdateAnimations => None,
        Action::UpdateWindowProperties(_) => None,
        Action::RequestRedrawAll => None,
    }
}

/// The loop stops exactly on a close request and on the runtime's own exit
/// event; every other event keeps it running.
pub proof fn lemma_exit_exactly_on_close_or_exit<P, F, H>(
    platform: Platform,
    state: EventLoopState<P>,
    event: LoopEvent<P, F, H>,
    alive: bool,
)
    ensures
        event_step(platform, state, event, alive).1 <==> (event is CloseRequested || event
            == LoopEvent::<P, F, H>::User(CustomEvent::Exit)),
{
}

/// An event acts on no window but the one it concerns, and on that one only
/// while it is alive.
pub proof fn lemma_actions_target_the_event_window<P, F, H>(
    platform: Platform,
    state: EventLoopState<P>,
    event: LoopEvent<P, F, H>,
    alive: bool,
)
    ensures
        forall|i: int|
            0 <= i < event_step(platform, state, event, alive).2.len() && #[trigger] action_window(
                event_step(platform, state, event, alive).2[i],
            ) is Some ==> alive && action_window(event_step(platform, state, event, alive).2[i])
                == event_window(event),
{
}

/// The remembered cursor position is the position of the last cursor move:
/// a move sets it, and every other event leaves it.
pub proof fn lemma_cursor_follows_moves<P, F, H>(
    platform: Platform,
    state: EventLoopState<P>,
    event: LoopEvent<P, F, H>,
    alive: bool,
)
    ensures
        event_step(platform, state, event, alive).0.cursor_pos == match event {
            LoopEvent::CursorMoved { position, .. } => position,
            _ => state.cursor_pos,
        },
{
}

/// A mouse button that goes down or up after the cursor moved is reported at
/// the position that the cursor moved to, and leaves the pointer pressed
/// exactly when the button went down.
pub proof fn lemma_button_at_last_cursor_position<P, F, H>(
    platform: Platform,
    state: EventLoopState<P>,
    moved_in: u64,
    position: P,
    moved_alive: bool,
    window: u64,
    button: ElementState,
)
    ensures
        ({
            let after_move = event_step(
                platform,
                state,
                LoopEvent::<P, F, H>::CursorMoved { window: moved_in, position },
                moved_alive,
            ).0;
            let step = event_step(
                platform,
                after_move,
                LoopEvent::<P, F, H>::MouseInput { window, button },
                true,
            );
            &&& step.2 == seq![
                Action::<P, F, H>::UpdateAnimations,
                Action::MouseInput { window, position, what: spec_button_mouse_event(button) },
            ]
            &&& step.0.pressed == (button == ElementState::Pressed)
            &&& step.0.cursor_pos == position
        }),
{
    let after_move = event_step(
        platform,
        state,
        LoopEvent::<P, F, H>::CursorMoved { window: moved_in, position },
        moved_alive,
    ).0;
    let step = event_step(
        platform,
        after_move,
        LoopEvent::<P, F, H>::MouseInput { window, button },
        true,
    );
    assert(step.2 =~= seq![
        Action::<P, F, H>::UpdateAnimations,
        Action::MouseInput { window, position, what: spec_button_mouse_event(button) },
    ]);
}

/// Only button, touch and cursor-leave events change whether the pointer is
/// pressed, and none of them does when the window is not alive.
pub proof fn lemma_pressed_changes_only_on_pointer_events<P, F, H>(
    platform: Platform,
    state: EventLoopState<P>,
    event: LoopEvent<P, F, H>,
    alive: bool,
)
    ensures
        !alive ==> event_step(platform, state, event, alive).0.pressed == state.pressed,
        !(event is MouseInput || event is Touch || event is CursorLeft) ==> event_step(
            platform,
            state,
            event,
            alive,
        ).0.pressed == state.pressed,
{
}

/// A press followed by a release on a live window, whether by mouse button or
/// by touch, leaves the pointer released.
pub proof fn lemma_press_then_release<P, F, H>(
    platform: Platform,
    state: EventLoopState<P>,
    window: u64,
    location: P,
    end: TouchPhase,
)
    requires
        end == TouchPhase::Ended || end == TouchPhase::Cancelled,
    ensures
        ({
            let pressed = event_step(
                platform,
                state,
                LoopEvent::<P, F, H>::MouseInput { window, button: ElementState::Pressed },
                true,
            ).0;
            &&& pressed.pressed
            &&& !event_step(
                platform,
                pressed,
                LoopEvent::<P, F, H>::MouseInput { window, button: ElementState::Released },
                true,
            ).0.pressed
        }),
        ({
            let touched = event_step(
                platform,
                state,
                LoopEvent::<P, F, H>::Touch { window, location, phase: TouchPhase::Started },
                true,
            ).0;
            &&& touched.pressed
            &&& !event_step(
                platform,
                touched,
                LoopEvent::<P, F, H>::Touch { window, location, phase: end },
                true,
            ).0.pressed
        }),
{
}

/// A typed character that is not a control character is handed to its live
/// window as one key input: a key press and then a key release with the same
/// text, both with one reading of the modifiers. A control character does
/// nothing at all.
pub proof fn lemma_typed_character<P, F, H>(
    platform: Platform,
    state: EventLoopState<P>,
    window: u64,
    character: char,
)
    ensures
        !spec_is_control(character) ==> event_step(
            platform,
            state,
            LoopEvent::<P, F, H>::ReceivedCharacter { window, character },
            true,
        ).2 == seq![
            Action::<P, F, H>::UpdateAnimations,
            Action::KeyInput {
                window,
                text: KeyText::Character(character),
                stroke: KeyStroke::PressThenRelease,
            },
        ],
        spec_key_events(KeyStroke::PressThenRelease) == seq![
            KeyEventType::KeyPressed,
            KeyEventType::KeyReleased,
        ],
        spec_is_control(character) ==> event_step(
            platform,
            state,
            LoopEvent::<P, F, H>::ReceivedCharacter { window, character },
            true,
        ).2.len() == 0,
{
    let step = event_step(
        platform,
        state,
        LoopEvent::<P, F, H>::ReceivedCharacter { window, character },
        true,
    );
    if !spec_is_control(character) {
        assert(step.2 =~= seq![
            Action::<P, F, H>::UpdateAnimations,
            Action::KeyInput {
                window,
                text: KeyText::Character(character),
                stroke: KeyStroke::PressThenRelease,
            },
        ]);
    }
}

/// A key event reaches its live window exactly when the key is one that the
/// runtime handles.
pub proof fn lemma_key_forwarded_iff_handled<P, F, H>(
    platform: Platform,
    state: EventLoopState<P>,
    window: u64,
    key: VirtualKeyCode,
    key_state: ElementState,
)
    ensures
        ({
            let actions = event_step(
                platform,
                state,
                LoopEvent::<P, F, H>::KeyboardInput { window, key: Some(key), key_state },
                true,
            ).2;
            &&& (spec_internal_key_code(key) is Some <==> actions.len() == 2)
            &&& spec_internal_key_code(key) is None ==> actions.len() == 1
            &&& spec_internal_key_code(key) matches Some(code) ==> actions[1]
                == Action::<P, F, H>::KeyInput {
                window,
                text: KeyText::Key(code),
                stroke: spec_key_stroke(key_state),
            }
        }),
{
}

/// The control flow at the end of a turn of the loop: stopping wins over
/// everything; running animations make the loop poll and redraw every window;
/// otherwise the loop waits until the next timer's deadline, or for the next
/// event when no timer is set. Every window is redrawn exactly when the loop
/// polls.
pub proof fn lemma_turn_control_flow<T>(exit: bool, has_active_animations: bool, next_timeout: Option<T>)
    ensures
        ({
            let (flow, redraw_all) = spec_flow_after_animations::<T>(exit, has_active_animations);
            let last = spec_flow_after_timers(flow, next_timeout);
            &&& exit ==> last == ControlFlow::<T>::Exit
            &&& !exit && has_active_animations ==> last == ControlFlow::<T>::Poll
            &&& !exit && !has_active_animations ==> last == match next_timeout {
                Some(deadline) => ControlFlow::WaitUntil(deadline),
                None => ControlFlow::<T>::Wait,
            }
            &&& redraw_all == (last == ControlFlow::<T>::Poll)
        }),
{
}

/// A close request stops the loop, acts on nothing and changes no state, on
/// every platform and whether or not the window is alive.
pub proof fn law_close_request<P, F, H>(
    platform: Platform,
    state: EventLoopState<P>,
    window: u64,
    alive: bool,
)
    ensures
        ({
            let step = event_step(
                platform,
                state,
                LoopEvent::<P, F, H>::CloseRequested { window },
                alive,
            );
            &&& step.0 == state
            &&& step.1
            &&& step.2.len() == 0
        }),
{
}

/// A redraw request advances the animations and then draws the window, if it
/// is alive; on every platform, without stopping the loop or changing state.
pub proof fn law_redraw_request<P, F, H>(
    platform: Platform,
    state: EventLoopState<P>,
    window: u64,
    alive: bool,
)
    ensures
        ({
            let step = event_step(
                platform,
                state,
                LoopEvent::<P, F, H>::RedrawRequested { window },
                alive,
            );
            &&& step.0 == state
            &&& !step.1
            &&& alive ==> step.2 == seq![
                Action::<P, F, H>::UpdateAnimations,
                Action::Draw { window },
            ]
            &&& !alive ==> step.2 == seq![Action::<P, F, H>::UpdateAnimations]
        }),
{
}

/// A resized live window reads its scale factor again and then gets the new
/// size, on every platform; a dead one gets nothing.
pub proof fn law_resize<P, F, H>(
    platform: Platform,
    state: EventLoopState<P>,
    window: u64,
    width: u32,
    height: u32,
    alive: bool,
)
    ensures
        ({
            let step = event_step(
                platform,
                state,
                LoopEvent::<P, F, H>::Resized { window, width, height },
                alive,
            );
            &&& step.0 == state
            &&& !step.1
            &&& alive ==> step.2 == seq![
                Action::<P, F, H>::RefreshScaleFactor { window },
                Action::SetGeometry { window, width, height },
            ]
            &&& !alive ==> step.2.len() == 0
        }),
{
    let step = event_step(
        platform,
        state,
        LoopEvent::<P, F, H>::Resized { window, width, height },
        alive,
    );
    if alive {
        assert(step.2 =~= seq![
            Action::<P, F, H>::RefreshScaleFactor { window },
            Action::SetGeometry { window, width, height },
        ]);
    }
}

/// A live window whose scale factor changed gets its new size and then the new
/// scale factor, on every platform; a dead one gets nothing.
pub proof fn law_scale_factor_change<P, F, H>(
    platform: Platform,
    state: EventLoopState<P>,
    window: u64,
    scale_factor: F,
    width: u32,
    height: u32,
    alive: bool,
)
    ensures
        ({
            let step = event_step(
                platform,
                state,
                LoopEvent::<P, F, H>::ScaleFactorChanged { window, scale_factor, width, height },
                alive,
            );
            &&& step.0 == state
            &&& !step.1
            &&& alive ==> step.2 == seq![
                Action::<P, F, H>::SetGeometry { window, width, height },
                Action::SetScaleFactor { window, scale_factor },
            ]
            &&& !alive ==> step.2.len() == 0
        }),
{
    let step = event_step(
        platform,
        state,
        LoopEvent::<P, F, H>::ScaleFactorChanged { window, scale_factor, width, height },
        alive,
    );
    if alive {
        assert(step.2 =~= seq![
            Action::<P, F, H>::SetGeometry { window, width, height },
            Action::SetScaleFactor { window, scale_factor },
        ]);
    }
}

/// A mouse button on a live window advances the animations and hands the
/// window a press (button down) or a release (button up) at the remembered
/// cursor position; the pointer is then pressed exactly when the button went
/// down. On a dead window only the animations advance and the state stays.
pub proof fn law_mouse_button<P, F, H>(
    platform: Platform,
    state: EventLoopState<P>,
    window: u64,
    button: ElementState,
    alive: bool,
)
    ensures
        ({
            let step = event_step(
                platform,
                state,
                LoopEvent::<P, F, H>::MouseInput { window, button },
                alive,
            );
            &&& !step.1
            &&& step.0.cursor_pos == state.cursor_pos
            &&& alive && button == ElementState::Pressed ==> step.0.pressed && step.2 == seq![
                Action::<P, F, H>::UpdateAnimations,
                Action::MouseInput {
                    window,
                    position: state.cursor_pos,
                    what: MouseEventType::MousePressed,
                },
            ]
            &&& alive && button == ElementState::Released ==> !step.0.pressed && step.2 == seq![
                Action::<P, F, H>::UpdateAnimations,
                Action::MouseInput {
                    window,
                    position: state.cursor_pos,
                    what: MouseEventType::MouseReleased,
                },
            ]
            &&& !alive ==> step.0 == state && step.2 == seq![Action::<P, F, H>::UpdateAnimations]
        }),
{
    let step = event_step(
        platform,
        state,
        LoopEvent::<P, F, H>::MouseInput { window, button },
        alive,
    );
    if alive {
        assert(step.2 =~= seq![
            Action::<P, F, H>::UpdateAnimations,
            Action::MouseInput {
                window,
                position: state.cursor_pos,
                what: if button == ElementState::Pressed {
                    MouseEventType::MousePressed
                } else {
                    MouseEventType::MouseReleased
                },
            },
        ]);
    }
}

/// A touch on a live window advances the animations and hands the window a
/// mouse event at the touch location: a press when the touch starts, a move
/// when it moves, a release when it ends or is cancelled. The pointer is then
/// pressed after a start, released after an end or a cancel, and unchanged
/// after a move; a touch never moves the remembered cursor. Whenever a touch
/// releases a pressed pointer, the window gets a release. On a dead window only
/// the animations advance.
pub proof fn law_touch<P, F, H>(
    platform: Platform,
    state: EventLoopState<P>,
    window: u64,
    location: P,
    phase: TouchPhase,
    alive: bool,
)
    ensures
        ({
            let step = event_step(
                platform,
                state,
                LoopEvent::<P, F, H>::Touch { window, location, phase },
                alive,
            );
            let touch_event = |what: MouseEventType|
                seq![
                    Action::<P, F, H>::UpdateAnimations,
                    Action::MouseInput { window, position: location, what },
                ];
            &&& !step.1
            &&& step.0.cursor_pos == state.cursor_pos
            &&& alive && phase == TouchPhase::Started ==> step.0.pressed && step.2 == touch_event(
                MouseEventType::MousePressed,
            )
            &&& alive && phase == TouchPhase::Moved ==> step.0.pressed == state.pressed && step.2
                == touch_event(MouseEventType::MouseMoved)
            &&& alive && phase == TouchPhase::Ended ==> !step.0.pressed && step.2 == touch_event(
                MouseEventType::MouseReleased,
            )
            &&& alive && phase == TouchPhase::Cancelled ==> !step.0.pressed && step.2
                == touch_event(MouseEventType::MouseReleased)
            &&& alive && state.pressed && !step.0.pressed ==> step.2[1] == Action::<
                P,
                F,
                H,
            >::MouseInput { window, position: location, what: MouseEventType::MouseReleased }
            &&& !alive ==> step.0 == state && step.2 == seq![Action::<P, F, H>::UpdateAnimations]
        }),
{
    let step = event_step(
        platform,
        state,
        LoopEvent::<P, F, H>::Touch { window, location, phase },
        alive,
    );
    if alive {
        assert(step.2 =~= seq![
            Action::<P, F, H>::UpdateAnimations,
            Action::MouseInput { window, position: location, what: spec_touch_mouse_event(phase) },
        ]);
    }
}

/// A cursor move remembers the new position, advances the animations and hands
/// a live window a move to that position; it does not touch the pressed flag.
pub proof fn law_cursor_move<P, F, H>(
    platform: Platform,
    state: EventLoopState<P>,
    window: u64,
    position: P,
    alive: bool,
)
    ensures
        ({
            let step = event_step(
                platform,
                state,
                LoopEvent::<P, F, H>::CursorMoved { window, position },
                alive,
            );
            &&& !step.1
            &&& step.0.cursor_pos == position
            &&& step.0.pressed == state.pressed
            &&& alive ==> step.2 == seq![
                Action::<P, F, H>::UpdateAnimations,
                Action::MouseInput { window, position, what: MouseEventType::MouseMoved },
            ]
            &&& !alive ==> step.2 == seq![Action::<P, F, H>::UpdateAnimations]
        }),
{
    let step = event_step(
        platform,
        state,
        LoopEvent::<P, F, H>::CursorMoved { window, position },
        alive,
    );
    if alive {
        assert(step.2 =~= seq![
            Action::<P, F, H>::UpdateAnimations,
            Action::MouseInput { window, position, what: MouseEventType::MouseMoved },
        ]);
    }
}

/// Leaving a window matters only where leaving cancels a press, and only while
/// the pointer is pressed: then the animations advance and a live window gets
/// a mouse exit at the remembered position and the press ends. Anywhere else,
/// leaving does nothing.
pub proof fn law_cursor_leave<P, F, H>(
    platform: Platform,
    state: EventLoopState<P>,
    window: u64,
    alive: bool,
)
    ensures
        ({
            let step = event_step(
                platform,
                state,
                LoopEvent::<P, F, H>::CursorLeft { window },
                alive,
            );
            let cancels = platform.cancel_press_on_cursor_leave && state.pressed;
            &&& !step.1
            &&& step.0.cursor_pos == state.cursor_pos
            &&& !cancels ==> step.0 == state && step.2.len() == 0
            &&& cancels && alive ==> !step.0.pressed && step.2 == seq![
                Action::<P, F, H>::UpdateAnimations,
                Action::MouseInput {
                    window,
                    position: state.cursor_pos,
                    what: MouseEventType::MouseExit,
                },
            ]
            &&& cancels && !alive ==> step.0 == state && step.2 == seq![
                Action::<P, F, H>::UpdateAnimations,
            ]
        }),
{
    let step = event_step(platform, state, LoopEvent::<P, F, H>::CursorLeft { window }, alive);
    if platform.cancel_press_on_cursor_leave && state.pressed {
        if alive {
            assert(step.2 =~= seq![
                Action::<P, F, H>::UpdateAnimations,
                Action::MouseInput {
                    window,
                    position: state.cursor_pos,
                    what: MouseEventType::MouseExit,
                },
            ]);
        } else {
            assert(step.2 =~= seq![Action::<P, F, H>::UpdateAnimations]);
        }
    }
}

/// A key event advances the animations; a live window then gets the key as one
/// stroke, a press when the key went down and a release when it came up, if
/// the key has an internal code, and nothing more otherwise. State stays.
pub proof fn law_key<P, F, H>(
    platform: Platform,
    state: EventLoopState<P>,
    window: u64,
    key: Option<VirtualKeyCode>,
    key_state: ElementState,
    alive: bool,
)
    ensures
        ({
            let step = event_step(
                platform,
                state,
                LoopEvent::<P, F, H>::KeyboardInput { window, key, key_state },
                alive,
            );
            &&& step.0 == state
            &&& !step.1
            &&& (!alive || key is None || key == Some(VirtualKeyCode::Other)) ==> step.2 == seq![
                Action::<P, F, H>::UpdateAnimations,
            ]
            &&& (alive && key is Some && spec_internal_key_code(key->0) is Some) ==> step.2
                == seq![
                Action::<P, F, H>::UpdateAnimations,
                Action::KeyInput {
                    window,
                    text: KeyText::Key(spec_internal_key_code(key->0)->0),
                    stroke: if key_state == ElementState::Pressed {
                        KeyStroke::Press
                    } else {
                        KeyStroke::Release
                    },
                },
            ]
        }),
{
    let step = event_step(
        platform,
        state,
        LoopEvent::<P, F, H>::KeyboardInput { window, key, key_state },
        alive,
    );
    if alive {
        if let Some(k) = key {
            if let Some(code) = spec_internal_key_code(k) {
                assert(step.2 =~= seq![
                    Action::<P, F, H>::UpdateAnimations,
                    Action::KeyInput { window, text: KeyText::Key(code), stroke: spec_key_stroke(key_state) },
                ]);
            } else {
                assert(step.2 =~= seq![Action::<P, F, H>::UpdateAnimations]);
            }
        } else {
            assert(step.2 =~= seq![Action::<P, F, H>::UpdateAnimations]);
        }
    } else {
        match key {
            Some(k) => {
                match spec_internal_key_code(k) {
                    Some(code) => {
                        assert(step.2 =~= seq![Action::<P, F, H>::UpdateAnimations]);
                    },
                    None => {
                        assert(step.2 =~= seq![Action::<P, F, H>::UpdateAnimations]);
                    },
                }
            },
            None => {
                assert(step.2 =~= seq![Action::<P, F, H>::UpdateAnimations]);
            },
        }
    }
}

/// A typed character below the space, or from DEL to U+009F, does nothing; any
/// other advances the animations and reaches a live window as one stroke that
/// presses and then releases the character. State stays.
pub proof fn law_typed_character<P, F, H>(
    platform: Platform,
    state: EventLoopState<P>,
    window: u64,
    character: char,
    alive: bool,
)
    ensures
        ({
            let step = event_step(
                platform,
                state,
                LoopEvent::<P, F, H>::ReceivedCharacter { window, character },
                alive,
            );
            let control = (character as u32) < 0x20 || (0x7f <= (character as u32) && (
            character as u32) < 0xa0);
            &&& step.0 == state
            &&& !step.1
            &&& control ==> step.2.len() == 0
            &&& !control && alive ==> step.2 == seq![
                Action::<P, F, H>::UpdateAnimations,
                Action::KeyInput {
                    window,
                    text: KeyText::Character(character),
                    stroke: KeyStroke::PressThenRelease,
                },
            ]
            &&& !control && !alive ==> step.2 == seq![Action::<P, F, H>::UpdateAnimations]
        }),
{
    let step = event_step(
        platform,
        state,
        LoopEvent::<P, F, H>::ReceivedCharacter { window, character },
        alive,
    );
    if !spec_is_control(character) {
        if alive {
            assert(step.2 =~= seq![
                Action::<P, F, H>::UpdateAnimations,
                Action::KeyInput {
                    window,
                    text: KeyText::Character(character),
                    stroke: KeyStroke::PressThenRelease,
                },
            ]);
        } else {
            assert(step.2 =~= seq![Action::<P, F, H>::UpdateAnimations]);
        }
    }
}

/// A modifier change reaches a live window as the modifiers whose flags are the
/// bits of its keys: shift bit 2, alt bit 8, and control and meta bits 5 (ctrl)
/// and 11 (logo), swapped where command acts as control. A dead window gets
/// nothing. State stays.
pub proof fn law_modifiers_change<P, F, H>(
    platform: Platform,
    state: EventLoopState<P>,
    window: u64,
    modifiers: u32,
    alive: bool,
)
    ensures
        ({
            let step = event_step(
                platform,
                state,
                LoopEvent::<P, F, H>::ModifiersChanged { window, modifiers },
                alive,
            );
            let ctrl = modifiers & 0b100000u32 != 0;
            let logo = modifiers & 0b100000000000u32 != 0;
            &&& step.0 == state
            &&& !step.1
            &&& alive ==> step.2 == seq![
                Action::<P, F, H>::SetKeyboardModifiers {
                    window,
                    modifiers: KeyboardModifiers {
                        shift: modifiers & 0b100u32 != 0,
                        alt: modifiers & 0b100000000u32 != 0,
                        control: if platform.command_is_control { logo } else { ctrl },
                        meta: if platform.command_is_control { ctrl } else { logo },
                    },
                },
            ]
            &&& !alive ==> step.2.len() == 0
        }),
{
    let step = event_step(
        platform,
        state,
        LoopEvent::<P, F, H>::ModifiersChanged { window, modifiers },
        alive,
    );
    lemma_each_modifier_is_its_own_bit(modifiers, platform.command_is_control);
    if alive {
        let m = spec_keyboard_modifiers(modifiers, platform.command_is_control);
        assert(step.2 =~= seq![Action::<P, F, H>::SetKeyboardModifiers { window, modifiers: m }]);
    }
}

/// A focus change reaches a live window as the same focus, on every platform; a
/// dead window gets nothing. State stays.
pub proof fn law_focus<P, F, H>(
    platform: Platform,
    state: EventLoopState<P>,
    window: u64,
    focused: bool,
    alive: bool,
)
    ensures
        ({
            let step = event_step(
                platform,
                state,
                LoopEvent::<P, F, H>::Focused { window, focused },
                alive,
            );
            &&& step.0 == state
            &&& !step.1
            &&& alive ==> step.2 == seq![
                Action::<P, F, H>::SetFocus { window, have_focus: focused },
            ]
            &&& !alive ==> step.2.len() == 0
        }),
{
    let step = event_step(
        platform,
        state,
        LoopEvent::<P, F, H>::Focused { window, focused },
        alive,
    );
    if alive {
        assert(step.2 =~= seq![Action::<P, F, H>::SetFocus { window, have_focus: focused }]);
    }
}

/// The runtime's own events, on every platform and whatever the window: changed
/// window properties are applied to the window behind the handle; loaded fonts
/// redraw every window; a wake-up does nothing; an exit stops the loop. None of
/// them changes the state, and only the exit stops the loop.
pub proof fn law_custom_events<P, F, H>(
    platform: Platform,
    state: EventLoopState<P>,
    handle: H,
    alive: bool,
)
    ensures
        ({
            let properties = event_step(
                platform,
                state,
                LoopEvent::<P, F, H>::User(CustomEvent::UpdateWindowProperties(handle)),
                alive,
            );
            let fonts = event_step(
                platform,
                state,
                LoopEvent::<P, F, H>::User(CustomEvent::FontsLoaded),
                alive,
            );
            let wake = event_step(
                platform,
                state,
                LoopEvent::<P, F, H>::User(CustomEvent::WakeUpAndPoll),
                alive,
            );
            let exit = event_step(
                platform,
                state,
                LoopEvent::<P, F, H>::User(CustomEvent::Exit),
                alive,
            );
            &&& properties.0 == state && !properties.1
            &&& properties.2 == seq![Action::<P, F, H>::UpdateWindowProperties(handle)]
            &&& fonts.0 == state && !fonts.1
            &&& fonts.2 == seq![Action::<P, F, H>::RequestRedrawAll]
            &&& wake.0 == state && !wake.1 && wake.2.len() == 0
            &&& exit.0 == state && exit.1 && exit.2.len() == 0
        }),
{
}

/// Events the loop does not react to change nothing.
pub proof fn law_other_events<P, F, H>(platform: Platform, state: EventLoopState<P>, alive: bool)
    ensures
        ({
            let step = event_step(platform, state, LoopEvent::<P, F, H>::Other, alive);
            &&& step.0 == state
            &&& !step.1
            &&& step.2.len() == 0
        }),
{
}

/// Only modifier changes and cursor leaves depend on the platform: every other
/// event is handled alike on all platforms. Modifier changes depend only on
/// whether command acts as control, and cursor leaves only on whether leaving
/// cancels a press.
pub proof fn law_platform_independence<P, F, H>(
    first: Platform,
    second: Platform,
    state: EventLoopState<P>,
    event: LoopEvent<P, F, H>,
    alive: bool,
)
    ensures
        !(event is ModifiersChanged || event is CursorLeft) ==> event_step(
            first,
            state,
            event,
            alive,
        ) == event_step(second, state, event, alive),
        event is ModifiersChanged && first.command_is_control == second.command_is_control
            ==> event_step(first, state, event, alive) == event_step(second, state, event, alive),
        event is CursorLeft && first.cancel_press_on_cursor_leave
            == second.cancel_press_on_cursor_leave ==> event_step(first, state, event, alive)
            == event_step(second, state, event, alive),
{
}

/// The window target comes from the running loop whenever one runs; otherwise
/// from the loop kept for later when there is one, and else from a loop to be
/// created.
pub proof fn law_window_target_source(running: bool, idle_present: bool)
    ensures
        running ==> spec_window_target_source(running, idle_present)
            == WindowTargetSource::Running,
        !running && idle_present ==> spec_window_target_source(running, idle_present)
            == WindowTargetSource::Idle,
        !running && !idle_present ==> spec_window_target_source(running, idle_present)
            == WindowTargetSource::CreateIdle,
{
}

} // verus!
