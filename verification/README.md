# gluxe

The verified core of gluxe, a runtime that renders a React tree from a bundled
JS application as a native window. The library (`src/`) holds the logic, each
function with a Verus contract:

- `model`, `id_list`, `state`, `lifecycle`: the element tree and the UI commands
  that build it, tab order and focus scopes, the command and animation-frame
  queues.
- `text_input`, `text_geometry`, `text_rows`, `text_util`: the text-input editing
  model (selection, IME marking, UTF-16 offsets, grapheme boundaries) and the row
  bookkeeping of multi-line layout.
- `style_fields`, `grid`, `length`, `color`, `font_family`, `anim`: style
  keywords and syntax, grid placement, transition bookkeeping.
- `plugin`, `registry`, `invoke`, `command_attr`, `component`: plugin commands,
  their registry and dispatch, the JSON envelopes, stream terminal rules, and the
  `#[command]` attribute's arguments.
- `config`, `assets`, `image_path`, `dev`, `build_config`, `jobs`, `anchor`,
  `scroll`, `scrollbar`: window configuration, asset keys, hot-reload decisions,
  the build hint, timers, floating placement and scrolling decisions.

`app/` is the process side: file and directory reads, the file watcher, the
build-script helper, serde parsing of the manifest, and the floating-point pixel
geometry. `tests/` exercises the library.
