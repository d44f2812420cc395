//! Verified core of the WayVR overlay: palette and color names, text
//! normalisation, speech-to-text session decisions, the generational window
//! table, and the small protocols that the UI and compositor glue rely on.

pub mod capture;
pub mod color;
pub mod compositor;
pub mod gen_vec;
pub mod http;
pub mod overlay;
pub mod palette_menu;
pub mod text;
pub mod whisper_models;
pub mod whisper_stt;
pub mod window;
