# opencv_rs

Image buffers and pixel-level image operations with machine-checked
contracts, plus scripted in-memory video capture, image encoding and image
operations for tests.

- `src/` — the library, verified with Verus: `OwnedMatView` and the
  `MatView` trait, `PureRustImageOps` (colour conversion, binary threshold,
  absolute difference, per-byte scaling, min/max location, non-zero count),
  the scripted fakes, the contract checks for the view, encoder and
  video-stream interfaces (each states the behaviour it checks as its
  precondition, so a verified call shows it), and the decisions the OpenCV-backed adapters make around their
  native calls.
- `app/` — ordinary Rust around it: floating-point parameters (`f64`
  thresholds, scale factors, the BGR luma weights, frame rates), the
  object-style interfaces with `f64` and `Path` arguments, shared
  (`Arc<Mutex<_>>`) handles to the fakes, the OpenCV calls themselves,
  run-time contract checks for streams behind `dyn`, and error types with
  `Display`.
- `tests/` — the test suite, run against the compiled library.
