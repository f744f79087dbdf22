# obs-service-cargo

An OBS source service that vendors the crates a Rust project depends on and
packs them into a compressed tarball beside a cargo configuration.

- `src/` is the verified library: the options and sources (`cli`), how a
  tarball's compression is told from its name (`utils`) or its content
  (`utils::detect`), path arithmetic (`utils::path`, partly through `std::path`), the
  plans for vendoring a project and its extra manifests (`utils`), and the
  decisions the program makes around its I/O (`service`).
- `app/` is the program: argument parsing, logging, the file system, the
  cargo processes and the tar/gzip/xz/zstd streams. It carries out the plans
  that the library makes.
- `tests/` runs the library on concrete values.
