# chasam

The verified core of a GTK media search tool.

- `src/` is checked by Verus. `csam` holds the search page: its state
  (`CsamModel`), the exact step it takes on each message (`input_step`,
  `command_step`), the grid filter (`csam::filter`) and the zoom steps
  (`csam::zoom`), with the laws that relate them. `face` and `factories` hold
  the face page and the media cells; `text` holds the case-insensitive name
  search.
- `app/` holds the relm4 widgets and the calls to the search service; they
  ask the library what to do and perform it.
- `tests/` runs the library on concrete values.
