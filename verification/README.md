# interactive_drawing

The decisions of a small paint program: a window shows an image, the mouse
stamps text on it, and keys change the brush.

- `src/events.rs`: the state kept between window events and `DrawingState::step`,
  which answers each event with the next state and what the loop does next.
- `src/input.rs`: which keys and mouse buttons are held.
- `src/paint.rs`: the brush (color, size, alpha) and how the keys change it.
- `src/texture.rs`: extent and byte layout of an RGBA image upload.
- `app/main.rs`: the window, the GPU, file loading and text rasterisation,
  which run the event loop around the library.
