# Majik's views

The decisions behind the views of Majik, a desktop app for generating images, video and audio, as a
verified library.

- `src/` is the library. Every view is plain state: its methods take plain values and return what is
  to be done, and their contracts are proved by Verus.
  - `feed` and `menu`: the grid, its selection, its actions and its context menu.
  - `detail`, `detail_frame` and `playback`: the carousel, what a frame of it shows, and its players.
  - `compose` and `compose_frame`: the composer panel and what a frame of it shows.
  - `library_window`: the window around them, its panels and its notifications.
  - `model_picker`, `album_picker` and `onboarding`: the picker, the sheet and the first launch.
  - `export`: what Copy puts on the clipboard and where Save writes. `paths`: paths as texts.
  - `model`: what the views know of the library. `text` and `seqs`: text, and picking from lists.
- `tests/` runs the library on concrete values.
- `app/` is what surrounds it: floating-point geometry, files and the clipboard, and the running of what
  the views decide.

Ids are the library's integer keys. Lengths, sizes and dates reach the views as they are written.
