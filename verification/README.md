# ripples

A terminal program in which mouse clicks drop droplets into a pond and the
ripples spread, tick by tick.

- `src/` is the verified library:
  - `stencil.rs`: the three stencils, their taps (offsets and base weights in
    hundredths) and the laws that hold of them;
  - `pond.rs`: the wave grid, generic over its number type: resizing,
    droplets, reading values, the neighbourhood each tap reads and the tick
    that applies a caller's step function to every cell;
  - `app.rs`: the application's decisions: which key and mouse events quit or
    drop a droplet, and how every event changes the state.
- `app/` is the program around it: the terminal, the event loop, rendering,
  and the floating-point wave arithmetic (tap weights adjusted to the cell
  aspect, damping, shading).
- `tests/` exercises the library.
