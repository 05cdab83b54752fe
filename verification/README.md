# tensaku

The logic of a screenshot annotation tool: the drawing tools, the crop, the
board that routes input to them, the layer list and the state that survives
between launches. The library is verified with Verus against contracts, all of
it but the few wrappers around outside crates; flips and turns, resizing, hit tests, crops, scroll steps, layer
moves and the clean-up of the state file come with proved laws.

## Numbers

Lengths are integers, in sub-units of a pixel (`units::UNIT` to the pixel).
Factors are in millionths (`units::MICRO`). Rounding is stated in each
contract.

## Layout

- `src/units.rs`, `src/wide.rs`, `src/math.rs`: arithmetic, points, rectangles
- `src/style.rs`, `src/input.rs`, `src/text.rs`, `src/pixels.rs`: colors and
  sizes, keys and pointer events, text, images
- `src/tools.rs`, `src/tools/`: the drawables, their tools, handles and
  whole-image transforms
- `src/text_bands.rs`: finding lines of text in an image
- `src/board.rs`, `src/board/`: the board. It is told what happened and lists
  the effects that the surroundings have to perform
- `src/state.rs`, `src/state_file.rs`, `src/legacy.rs`: what is kept between
  launches, the names of the files it is written to, and the removal of keys
  that moved elsewhere
- `app/`: files, processes, the clock, painting and the window
- `tests/`: tests of the library

Calls into `keycode`, `hex_color` and `toml_edit` go through a few trusted
declarations. They stand next to their callers, each with a comment that says
what is claimed of the outside function.
