# toniator_app

The verified presentation and workflow policy of the Toniator desktop
application: the decisions the window makes between the artist, the document
history and the renderer, stated as contracts and proved with Verus.

## Layout

- `src/` — the verified library, one module per concern:
  - `lifecycle`, `workspace`, `source_notice`, `startup`, `main_view` —
    unsaved-work routing, the window-close handshake, titles and action
    availability, save routes and file names, banners, zoom levels;
  - `preview_coordinator` — which preview completions are accepted;
  - `commands` — which document, channel, output or definition edit an
    inspector input asks for, or the message when it does not fit;
  - `inspector`, `labels`, `temporal`, `paint` — which control edits a value,
    which rows a sidebar or editor shows, how focus survives edits, the
    artist-facing vocabulary, End-override and easing edits;
  - `scatter_memory` — inactive random-site choices remembered per scope and
    slot, and restored by a transition;
  - `construction`, `path_editor` — the target a new authored path attaches
    to, and the discrete state of the private path editor;
  - `paths` — filesystem paths compared by their components;
  - `pattern_management`, `sequence_import`, `presentation`, `channels`,
    `text` — catalog naming, frame ordering, fixed vocabularies, channel
    selection and the string helpers the contracts are stated over.
- `tests/` — executable tests of the library.
- `app/` — the command-line entry: argument handling, filesystem-path
  adapters and the floating-point presentation values the library does not
  hold.
