//! Core logic of the audio recorder manager: naming, formats, status
//! bookkeeping, FFmpeg command plans and WAV header scanning.

pub mod text;
pub mod error;
pub mod quality;
pub mod domain;
pub mod args;
pub mod encoding;
pub mod wav;
pub mod capture;
pub mod paths;
pub mod ffmpeg;
pub mod ordering;
pub mod recovery;
pub mod status;
pub mod progress;
pub mod chunks;
pub mod logging;
pub mod output;
pub mod config;
pub mod dto;
pub mod desktop;
pub mod transcription;
pub mod gui;
pub mod cli;
