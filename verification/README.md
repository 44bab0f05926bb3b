# Soup game

A game for a small board with a display, two lit buttons and a load cell. Press
the soup with the right force to hurt it; press the lit button in time to protect
yourself.

- `src/` holds the rules of the game, verified with Verus. Each task is a state
  machine: `action` says what it wants done next, `advance` takes in what came of
  it. What holds of a task as a whole is proved in the files named `..._laws`, and
  what holds however the tasks take turns in `system.rs`.
- `app/` is the firmware for an ESP32-C3. It performs the actions: pins, clock,
  random numbers, display. It expects the six images as QOI files in `images/`.
- `tests/` runs the library on concrete values.
