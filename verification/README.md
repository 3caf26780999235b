# retheme

The verified core of the ReTheme WE desktop client, which dresses the
ChatGPT app in local Wallpaper Engine wallpapers and signed online themes.

`src/` is a Verus library; every function there carries a contract that
Verus proves:

- `tray`: tray menu labels and actions.
- `controls`, `css`: wallpaper brightness and interface transparency, and
  the style sheet of a live wallpaper theme.
- `paths`, `workshop`, `catalog`, `webwall`, `assets`, `wallpaper`: the
  Workshop catalog (classified, ordered by title), the import of a Video,
  Web or Scene project as a theme package, and its runtime assets.
- `runtime`, `urls`: the runtime configuration the injected theme reads.
- `registry`, `versions`, `repository`: installed online themes (ordered by
  id), semantic-version admission, and the checks an archive passes on its
  way in and out of the repository.
- `digest`, `integrity`, `cache`: SHA-256 digests, the signed integrity
  index, and the device-bound encrypted cache.
- `capture`, `engine`, `scene`: Scene frame capture decisions, the
  Wallpaper Engine control interface, and the steps that start a Scene
  capture (a state machine whose actions `app/` performs).

`app/` holds the file system, JSON and process code around the library;
`tests/` exercises the library on concrete values.
