# rvsrg views

The decisions behind the user interface of rVsrg, a vertical scrolling rhythm
game, as a library whose functions carry contracts proved with Verus, and the
drawing code around it.

- `src/` is the verified library:
  - `text.rs`: decimal printing and parsing, `{placeholder}` substitution,
    joining, padding, case-insensitive comparison, file names of paths.
  - `model.rs`: judgements, hit counts, judgement labels and hit windows.
  - `gameplay.rs`, `playfield.rs`: which pieces each note is drawn with and
    how the note instances are packed, column by column and kind by kind,
    into one instance buffer.
  - `hud.rs`: the texts of the gameplay HUD and the hit bar's history.
  - `result.rs`: the result screen's texts, the judgement of a hit offset and
    the hits that the timing graph plots.
  - `song_select.rs`: the song list's rows, visible range and selection fade,
    the cards' texts, which ratings are shown and the calculator choice.
  - `leaderboard.rs`: the score cards' ranks, pills and elapsed-time texts.
  - `settings.rs`: the skins offered and the keybind rows, ordered by mode.
  - `editor.rs`: the skin editor's elements, what the preview shows and what
    a drag moves.
  - `menu.rs`: the main menu's action.
- `tests/` runs the library on concrete values.
- `app/` draws with egui, wgpu and the glyph brush, reads files and the
  clock, and does the floating-point placement that the library leaves out.

The laws that span several functions are the public `lemma_*` proof
functions of each module.
