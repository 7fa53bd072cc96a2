# glider

Glider is an endless runner / momentum platformer: the rider skis down an
endless snowy mountain, jumps over rocks and chasms, and earns a combo
multiplier for clean backflip landings.

- `src/` is the verified library (Verus): the discrete rules of the game.
  - `input::tv_input_manager`: TV-remote actions with one-frame press pulses.
  - `game::flow`: playing / paused / game-over flow, best score, crash handling.
  - `game::combo`: the combo multiplier.
  - `game::rider`: grounded / airborne state and backflip tracking (a
    backflip is jump held in the air past three quarters of a turn).
  - `game::terrain`: the sliding window of terrain columns.
  - `game::tiles`: snow-tile sequencing and atlas placement.
  - `game::schedule`: which column comes next, chasms, wave segments, rock spacing.
  - `game::world`: the terrain window and its generator, kept aligned.
  - `game::effects`: screen fade transitions.
- `app/` is the program around it (macroquad): window, assets, keyboard,
  floating-point physics, camera, particles, drawing, and the browser bridge.
- `tests/` exercises the library.
