# transcribe

The decision logic of a desktop transcription feature (local files and video
URLs through yt-dlp and Whisper, Whisper model management, web article
scraping), written in Verus with its contracts proved.

- `src/` — the verified library:
  - `slug.rs` — file names derived from video URLs;
  - `state.rs` — the cancellation flags of running tasks and task ids;
  - `pipeline.rs` — the course of a transcription job as a state machine;
  - `audio.rs` — track choice and packet/decode decisions while extracting audio;
  - `ytdlp.rs` — yt-dlp search order, command line, progress lines, failures,
    installation report and the choice of the downloaded file;
  - `models.rs` — the Whisper model catalogue and its reports;
  - `transcript.rs`, `scrape.rs` — the transcript text and the scraped article;
  - `text.rs` — character-level text operations with their specifications.
- `app/` — the Tauri commands: file, network and process work, audio decoding,
  resampling and speech recognition, driven by the library.
- `tests/` — tests of the library on concrete values.
