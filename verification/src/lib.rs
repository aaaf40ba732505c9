//! The decisions behind Majik's views: what each view shows, what its controls do, and what it asks
//! of the library, the players and the system around it.
//!
//! A view is plain state. Its methods take what the rest of the app knows as plain values and return
//! what is to be done. Each view's state has a model over sequences, and each method a contract that
//! says what becomes of that model; what holds across methods is stated as laws at the end of each
//! module.

pub mod album_picker;
pub mod compose;
pub mod compose_frame;
pub mod detail;
pub mod detail_frame;
pub mod export;
pub mod feed;
pub mod library_window;
pub mod menu;
pub mod model;
pub mod model_picker;
pub mod onboarding;
pub mod paths;
pub mod playback;
pub mod seqs;
pub mod text;
