# feenk-signer

Signs macOS applications (with a certificate imported into a temporary
keychain, then codesign) and Android packages (with `apksigner` and a
keystore).

- `src/` is the verified library. It decides every step of a signing: the
  programs to run and their arguments, what their output means, which
  entitlements file to use, and when a signing has failed. A macOS signing is
  a state machine (`macos::MacSigner::start` and `macos::MacSigner::sign`):
  the caller reports what happened and is told what to do next. The laws
  that every step keeps are in `src/macos/laws.rs`.
- `app/` is the command-line program: it parses the arguments, runs the
  programs, touches the files, and reports back to the library.
- `tests/` runs the library on concrete values.
