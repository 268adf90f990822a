# Project Sunrise launcher

The launcher installs Project Sunrise and keeps it up to date. Its rules are a library that Verus
checks; the network, the file system and the environment are ordinary Rust around it.

- `src/depot_errors.rs`: the failure that DepotDownloader's output reports first, and what the user
  reads about it
- `src/settings.rs`, `src/json.rs`, `src/pe.rs`: settings.json, merged from the defaults inside the
  Sunrise DLL and the present file
- `src/github.rs`, `src/digest.rs`: addresses, answers, limits, progress and digests of downloads
- `src/storage.rs`: what the launcher shows of an installation folder, and the steps in which a
  file is replaced
- `src/missions.rs`: the steps in which the mission scripts are replaced
- `src/models.rs`, `src/error.rs`, `src/paths.rs`, `src/runtime.rs`, `src/text.rs`: what the others
  share
- `app/`: requests, files and folders

Functions named `law_...` state what holds of the library as a whole. The functions marked
`external_body` call into a crate or the standard library; their contracts are taken on trust, and
their comments say what they claim. Each makes one call or takes one value, but for
`pe::find_resource`, which makes three calls, one on the result of the other, after it has looked
at the address of the image.
