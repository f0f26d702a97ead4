# sixtyfps_eventloop

The event dispatch of the winit event loop of the SixtyFPS OpenGL backend.

- `src/` is the library, with its contracts and proofs: the input vocabulary (`input`), the keyboard
  modifiers taken from winit's modifier state (`modifiers`), the registry of
  windows (`registry`) and the loop's decisions (`dispatch`): for each event the
  next loop state, whether the loop stops and the actions to perform, then the
  control flow once animations and timers are known, and the event loop kept
  for later until the loop runs (`IdleLoop`).
- `app/` runs the winit loop: it converts winit events, tells the library
  whether the event's window is alive, performs the actions on the windows and
  the runtime, and hands the control flow back to winit.
- `tests/` runs the library on concrete events.
