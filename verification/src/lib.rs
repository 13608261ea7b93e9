//! Brings tracks, playlists and likes of a remote catalog to files.
//!
//! The library decides and the caller performs: the library words the
//! requests, reads what comes back, picks the encoding, names the file and
//! keeps the books of a batch; the caller sends, waits, and writes.
//!
//! Each decision has a contract, and the contract is proved. What is taken
//! on trust is what outside code does: how `serde_json` reads a text
//! (`soundcloud::json`), which characters are white space (`util`), the
//! number that the jitter of a wait is taken from (`soundcloud::gateway`),
//! and that `String::push` appends (`text`).
//!
//! - `soundcloud::gateway`: when a request is sent again, and after what wait.
//! - `soundcloud::request`: the requests, with their credentials.
//! - `soundcloud::hydration` and `soundcloud::json`: entities out of a page.
//! - `soundcloud::likes`: the listing of liked tracks, page by page.
//! - `soundcloud::selector`: which encoding of a track is fetched.
//! - `job` and `batch`: one entry on its way to a file, and many at once.
//! - `downloader`, `util` and `text`: the names of the files.
//! - `audio` and `ffmpeg`: how an asset is stored.
//! - `cli` and `config`: what follows from the arguments.

pub mod audio;
pub mod batch;
pub mod cli;
pub mod config;
pub mod downloader;
pub mod error;
pub mod ffmpeg;
pub mod job;
pub mod soundcloud;
pub mod text;
pub mod util;
