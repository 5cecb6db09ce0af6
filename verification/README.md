# pikadick

The logic of the pikadick Discord bot as a verified library: what it reads
from the services it talks to, what it decides, and what it replies.

- `src/` is the library. Every function there is verified by Verus against
  its `requires`/`ensures` contract; the few calls into outside crates
  (`url`, `itoa`, `serenity`'s timestamp parser, and two std functions) sit
  behind small wrappers whose contracts are trusted and say what they claim.
  Laws that span several functions are public proof functions named `law_*`.
- `app/` is a small command-line front end that does the I/O the library
  leaves out: HTTP requests, running ffmpeg, the file system.
- `tests/` runs the library on concrete values.

Modules: `r6tracker`, `profile` and `stats` (the R6Tracker lookup and its
embed), `tiktok`, `reencode`, `flags`, `links` and `message` (TikTok and
Reddit link embeds), `rule34`, `urban`, `vaporwave`, `zalgo`, `ffmpeg`,
`sqlite_log`, with `text`, `hex` and `embed` as shared helpers.
