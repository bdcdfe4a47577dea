# Kimi Quota Bar

A card in the macOS menu bar or the Windows tray that shows how much of a Kimi subscription is
used: in all, within five hours, and within seven days.

- `src/` is the library: reading and writing the encrypted token files, renewing tokens, reading
  the quota, signing in and out, and where the card stands on the screen. Verus proves each
  function against its contract. What the library takes on trust from outside crates stands in
  functions marked `external_body`, each with a comment that says what is taken on trust.
- `tests/` runs the library with the real crates.
- `app/` is the program around it: files, network, keychain, DPAPI, windows and the tray.
