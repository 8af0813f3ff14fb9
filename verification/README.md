# pokebot

A TeamSpeak music bot with a web interface. The master bot waits in a
channel; a user who pokes it gets a music bot in their own channel, and a
private message `auth` gets them a token to log into the web interface, where
they manage the song catalogue and the bot's playlist.

## Layout

- `src/` is the verified library (Verus):
  - `master.rs`: the master bot's bookkeeping (free names and identities,
    connected bots), the checks on a request for a bot, the decisions taken on
    chat events, and the merging of configuration file and command line;
  - `song.rs`, `album.rs`: the catalogue, songs in album order;
  - `audio_file.rs`: reading the tags of uploaded audio, file and cover paths;
  - `api.rs`: errors of the web API and their answers, playback commands,
    playlist views;
  - `db_util.rs`: durations and how the database stores them;
  - `text.rs`, `youtube_dl.rs`: text helpers and downloader decisions.
- `app/` is the unverified shell: the TeamSpeak actor, the database queries,
  the HTTP handlers, the downloader process and the music directory scan.
- `tests/` exercises the library.
