# midway

The verified core of Midway, a desktop HTTP client: request tabs and their
editors, the workspace tree (collections, folders, saved requests), the
environments, the command palette, the keyboard shortcuts, the collection
runner's state, the session store, and the planning of imports. Each
reducer takes the application state and a message and returns the next
state together with the outside work it asks for (an `Effect`); every one of
them is proved against its contract with Verus.

Layout:

- `src/` — the library, verified with Verus.
  - `state.rs`, `model.rs`, `records.rs`: the data and its views.
  - `tabs.rs`, `editing.rs`, `composer.rs`, `composer_update.rs`: request tabs.
  - `saving.rs`, `crud.rs`, `reconcile.rs`, `navigation.rs`: the workspace tree.
  - `environments.rs`, `workspace_panel.rs`, `import_plan.rs`, `names.rs`: the side panel,
    export and import.
  - `palette.rs`, `keyboard.rs`, `shortcuts.rs`, `runner.rs`, `session.rs`, `app_update.rs`.
  - `laws.rs`, `sequence_laws.rs`: properties that span several operations.
  - `external.rs`: the two calls into outside crates (`uuid`, `chrono`).
- `tests/` — tests that run the library.
- `app/` — the window layer: the iced runtime, the `midway_core` store and
  HTTP engine, file I/O, and the panel geometry in `f32`.
