# s3nav

A terminal file browser for Amazon S3 and S3-compatible services: browse
buckets and folders, preview and edit text files, upload, download, create
and delete objects, and keep named connection configurations.

The browser's logic is a library verified with Verus; the program around it
performs the network, disk and terminal work.

## Layout

- `src/` — the verified library.
  - `model.rs` — the whole browser as a state machine over plain values:
    what each key and each outcome of outside work does to the state, and
    which outside work comes next.
  - `app.rs` — the executable state (`App`), each method proved to follow
    the model.
  - `laws.rs` — properties that span several steps (going into a folder and
    back, `Esc` going up or asking to quit, `D` and folder downloads,
    saving and deleting configurations, deleting folders, toggling hidden
    files, the editor's round trip, …).
  - `form.rs` — the configuration form, its caret and its laws.
  - `config.rs` — saved configurations and the messages of loading and
    saving them.
  - `s3.rs` — connection settings, listings, text-file detection and the
    keys of a folder download.
  - `download.rs` — the steps of downloading a whole folder, which `App`
    drives after `D` on a folder.
  - `picker.rs`, `order.rs` — the local file picker and the stable
    folders-first sort.
  - `size.rs` — sizes in B, KB, MB and GB as an `f64` quotient shows them.
  - `display.rs` — the header's title, entry paths, timestamps, line
    numbers and the kind of a status message.
  - `text.rs` — string operations with their specifications.
- `tests/` — tests of the library on concrete values.
- `app/` — the program: command line, terminal, AWS calls, configuration
  file, rendering.
