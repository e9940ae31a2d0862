# hachimi

The decision logic of the Hachimi game mod, verified with Verus.

- `src/` — the library. `windows::external_link` decides which of the
  game's external links open in the in-game web view and at which address
  (link parsing, the news, site and gacha handlers, the registry of gacha
  links, the web view messages); `windows::proxy::dxgi` builds the path of
  the system `dxgi.dll` and says what each proxied export does;
  `il2cpp::hook` holds the decisions of the game hooks (which hooks each
  edition gets, depth of field in lives, race commentary, and the home
  scene's free camera as step functions); `ios` recognises the game's
  libraries, finds the image dyld loaded and places Hachimi's files.
  `text`, `path` and `str_map` are the string, path and map support they
  share.
- `tests/` — tests of the library on concrete values.
- `app/` — the glue that the library cannot hold: the environment, logging,
  dyld and `dlsym` on iOS, and the registry of gacha links with the locale
  lookup of dialog titles. It does not drive the il2cpp hooks or the
  Windows web view: the game bindings, the gui and the window hook they
  need are not part of this code.
