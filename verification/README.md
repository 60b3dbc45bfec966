# m3u8dl_gui

A graphical front end for the N_m3u8DL-RE downloader. The library (`src/`) holds
its logic, verified with Verus:

- `app.rs` — the form's model (`App`, the choices, `Message`, `Effect`), the
  command preview and the saved settings;
- `args.rs` — the downloader's command line built from the form;
- `step.rs` — one step of the form: what each message changes and which outside
  work it asks for; `start.rs` — starting a run once the downloader was looked
  for; `log.rs` — the run's log, where a progress line replaces the last one;
- `form.rs` — the form at launch; `config.rs` — the remembered settings;
- `detect.rs` — default folders and the order in which the downloader and ffmpeg
  are looked for; `runner.rs` — decoding and cutting the downloader's output;
- `icon.rs` — the window icon; `captions.rs` — page and run captions;
- `laws.rs` and the `law_` proof functions elsewhere — what holds across steps.

`app/` is the program around it (iced window, dialogs, files, processes,
clipboard): it performs the `Effect` that each step returns.
