# ledzilla_server

HTTP server and API for a HUB75 LED matrix driven by a Raspberry Pi (or a
simulator window). Clients describe what the display shows as a list of
components (text, lines, rectangles, images and GIFs, with static or animated
colours and optional scrolling), upload image files, and switch the display on
and off.

## Layout

- `src/` is the library, verified with Verus:
  - `component/`, `graphics_component/`: component descriptions, colours and
    their CSS text forms, keyframe validation and gradients, fonts, text
    templates, and the per-frame drawing state of each component;
  - `upload.rs`: decoding, resizing and storing uploaded images by name;
  - `renderer/`: what each renderer command does to the display state and
    the components shown;
  - `server.rs`: request routing and how each API outcome is answered;
  - `config_parse.rs`: the configuration file's sections and defaults.
- `app/` is the program around it: configuration file reading, the simulator
  and LED displays, drawing with embedded-graphics, scrolling, the renderer
  thread and the HTTP handlers.
- `tests/` exercises the library on concrete values.
