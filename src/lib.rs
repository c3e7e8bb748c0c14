//! Core logic of a live speech-to-text transcriber.
//!
//! The crate holds the decisions of the transcription pipeline: decoding the
//! PCM stream that the capture graph delivers, cutting it into fixed-size
//! windows with a loudness measure each, turning recognizer output into
//! transcript messages, and the control state machine that serialises the
//! pipeline's lifecycle (start, stop, source changes, recognizer resets).
//! Everything that touches audio devices, the streaming graph, the speech
//! engine or the UI is driven from outside through these functions.

mod loudness;
mod models;
mod pcm;
mod recognizer;
mod router;
mod transcriber;
mod transcript;

pub use loudness::{
    full_scale_energy, lemma_energy_bounded, lemma_full_scale_is_one, lemma_silence_is_zero,
    loudness, magnitude, measures, window_energy, Loudness, SAMPLE_MAX,
};
pub use models::{archive_layout, relative_paths, under_root, ArchiveError, RemoteModel};
pub use pcm::{decode_s16le, s16le_sample, s16le_samples};
pub use recognizer::{query_after, query_for, DecodingState, ResultQuery};
pub use router::{
    lemma_one_window_per_chunk, lemma_window_count, routes, window_samples, window_steps,
    AudioWindow, RouterState, SampleRouter, WindowStep,
};
pub use transcriber::{
    lemma_halt_then_reset, lemma_reset_is_silent, lemma_restart_is_stop_then_start,
    lemma_stale_stream_end_ignored, lemma_started_before_stopped, lemma_stop_when_idle,
    next_session, reset_after_halt,
    Command, InMsg, Phase, Transcriber, TranscriberState,
};
pub use transcript::{
    join_words, joined, lemma_query_matches_report, reports, transcript_message, Msg,
};
