# firemusic

A terminal music player built on mpv and yt-dlp, with a discovery hub (YouTube,
YouTube Music, SoundCloud, TikTok), a download wizard, a full-screen terminal
interface and a desktop front end.

The decisions of the player are a library verified with Verus; the parts that talk
to mpv, the terminal, the network, the disk and other programs are ordinary Rust
around it.

## Layout

- `src/` — the verified library.
  - `text.rs` — text as sequences of characters: searching, splitting, trimming,
    ordering, and the lemmas about them.
  - `cli.rs` — what the command line asks for.
  - `firecore/` — configuration paths, input validation, the discovery hub
    (query building, result handling, TikTok link extraction, the search session's
    steps), the download wizard and its yt-dlp arguments, playlist files, the
    paged multi-select menu, the command-line player's key handling and the
    equalizer's band cursor.
  - `tui/` — the terminal interface's state: library browsing, the queue,
    playlists, key routing, prompts, cover pictures.
  - `gui/` — the desktop front end's commands and the snapshot it draws.
- `tests/` — tests of the library.
- `app/` — the program: argument parsing, mpv, the terminal, network and disk
  access, floating-point playback settings, and the loops that feed events to the
  library and carry out what it decides.

Each public function of the library states what it returns in its `ensures`, as far
as the result is the library's own (what the disk or the environment answers is
stated only as far as it is known, and what follows from each answer is exact);
properties that span several functions (a playlist written and read back, cursor
moves that undo each other, the equalizer cycle, and others) are public proof
functions next to the code they speak of.
