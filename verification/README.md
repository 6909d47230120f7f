# cxx_qt_build

The logic of a CXX-Qt build script, verified with Verus.

- `src/` — the verified library: naming and path rules (`naming`), the cargo
  cfg directives for the Qt version and the cfg options that cargo's
  environment and those directives enable (`cfg`), the builder state and its
  invariants (`builder`), collecting a bridge file's tokens and generating its
  C++ code with `cxx_gen`, its cfgs decided by the enabled cfg options
  (`generated`), the decisions of the build steps
  (`steps`), the pointer rewrites of bridge types (`references`), the notify
  signal of a property (`signal`), the application's event loop exit code
  (`application`), and the token and string helpers they share.
- `app/` — the build-script side: environment variables, printing, files,
  the C++ compiler (`cc`), and conversions from `syn`/`proc_macro2` values.
- `tests/` — tests of the library.
