# gitui worktrees

The worktree browser of a terminal git client, verified with Verus.

- `src/commit.rs` — commit ids and their hexadecimal and abbreviated forms.
- `src/paths.rs` — comparing paths through their canonical forms.
- `src/worktrees.rs` — the list of worktrees: the main checkout first, then
  every linked worktree, each with its branch, HEAD commit and flags.
- `src/keys.rs` — key strokes and the tab's key bindings.
- `src/tab.rs` — the worktree tab: selection, scrolling by line and page,
  refreshing, opening the selected worktree, table rows and commands.
- `src/main_loop.rs` — what the client's main loop does with each event.
- `src/laws.rs` — properties that span several of the functions above.
- `app/` — reading repositories with git2, drawing with ratatui, key
  mapping with crossterm and the event loop over crossbeam channels.
