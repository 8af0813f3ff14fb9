//! Core logic of a TeamSpeak music bot and its web interface: the pool of
//! bot names and identities the master bot hands out, the decisions it takes
//! on chat events, the song and album catalogue, and the values the web API
//! answers with.
pub mod db_util;
pub mod master;
pub mod song;
pub mod album;
pub mod text;
pub mod youtube_dl;
pub mod api;
pub mod audio_file;
