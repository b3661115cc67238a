# openxr_stream

Session logic of an OpenXR streaming client, written and proved in Verus.

- `src/` is the library. Rendering a frame and polling the devices alternate
  between work for the runtime and decisions on what comes back; the decisions
  are steps of two machines (`render`, `input_loop`). Around them stand the
  settings (`config`), the stream itself (`context`), the choice of the decoder
  (`decoder`), the tracking data (`tracking`), the buttons (`buttons`), the
  guardian (`guardian`) and its alert (`beep`). Single-precision numbers are held
  by their bits (`float32`). What holds over several calls is proved in
  `guardian_laws`, `input_loop_laws`, `render_laws` and `context_laws`, and
  beside the functions themselves.
- `tests/` runs the library on chosen values.
- `app/` performs the work: it drives the OpenXR runtime and plays the alert
  through rodio. The other components of a client, the audio output among them,
  are traits in `app/components.rs`.
