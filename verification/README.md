# fjx

A command-line tool that converts Fujifilm X100VI RAF files to JPEG on the
camera's own image processor over USB (PTP), applying film simulation recipes.

The library in `src/` is written in Verus and verified: every public function
states what it returns in its contract, and the properties that span several
functions are proved as `law_*` proof functions.

- `text.rs`: characters, decimal/hex rendering, trimming, splitting, parsing.
- `profile.rs`: recipe settings, the D185 development profile (reading and
  writing properties, applying a recipe), exposure compensation notation.
- `ptp.rs`: PTP containers, responses, datasets (DeviceInfo, ObjectInfo),
  UTF-16 strings, code names.
- `fuji.rs`: dynamic range clamping, RAF checks, the conversion of one RAF as
  a state machine driven by camera answers.
- `recipes.rs`: recipes, lookup, the catalogue listings.
- `config.rs`: project files: overlays, validation, expansion into batches.
- `analyse.rs`: EXIF readouts and how closely recipes match them.
- `cli.rs`: output planning, paths, and the reports the commands print.
- `glob_match.rs`: glob patterns, through the `glob` crate.

`app/` holds the program around it: argument parsing, files, USB transfers,
exiftool, the terminal progress display and the TOML/JSON readers.
