# smooth_cursor

Geometry of the editor's smooth cursor and its smear trail.

- `src/` — the verified library (Verus): corner labelling and ordering of a
  cursor box (`corners`), the choice of trail anchor corners from the
  direction of motion (`trail`), and the box each cursor shape occupies in a
  text line (`shape`), with the laws that relate them.
- `app/` — the editor side, in plain Rust against gpui: the per-frame
  floating-point easing of the painted corners, the trail's fades and
  polygon, and painting. It calls the library for the combinatorial parts.
- `tests/` — tests of the library on concrete values.
