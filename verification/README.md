# webp_to_gif

A desktop tool that turns WebP images and animations into GIF files, keeping
every frame and its timing. This crate is its verified core, written in
Verus; `app/` is the desktop shell around it (window commands, files, the
portable launcher's process start).

Layout of `src/`:

- `path.rs` — paths as components (`FilePath`): parent, join, file name,
  stem and extension, with the same rules as `std::path`.
- `output.rs` — the default output folder (`GIF` beside the executable), the
  WebP filter, and the free output name `stem.gif`, `stem (1).gif`, ...
- `converter.rs` — frame delays from WebP timestamps, GIF encoding and
  reading back, through the `webp-animation` and `gif` crates.
- `job.rs`, `history.rs`, `settings.rs` — the state of each file in a batch
  and the step that moves it on,
  the history of finished files (newest first, at most 50), the stores.
- `launcher.rs` — the footer of the portable executable and where its
  payload lies.
- `text.rs` — decimal and hexadecimal digits, ASCII case-insensitive compare.
