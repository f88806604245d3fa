//! Core logic of a reactive "talking avatar" overlay.
//!
//! The crate tracks the cursor to pick a sprite from a screen-aligned grid,
//! and turns microphone activity into a decaying "speaking" signal.  All
//! decision logic lives here, verified: the spectral magnitude reduction, the
//! sensitivity tracker, the input-device bookkeeping, the audio session state
//! machine and the message dispatch.  The host process supplies the outside
//! world (audio capture, the Fourier transform on float samples, channels,
//! timers and the GUI) and hands plain values in and out.

pub mod audio;
pub mod cli;
pub mod color;
pub mod config;
pub mod frontend;
pub mod message;
pub mod numbers;
pub mod state;
mod text;

pub use audio::sensitivity::SENSITIVITY_SCALE;
pub use audio::AudioHandler;
pub use audio::AudioHandlerResult;
pub use audio::AudioMessage;
pub use audio::AudioResult;
pub use audio::AudioStatus;
pub use cli::Args;
pub use cli::ArgsError;
pub use cli::ValidArgs;
pub use color::Color;
pub use color::ColorParseError;
pub use config::AudioConfig;
pub use config::Config;
pub use config::ScreenInformation;
pub use frontend::Frontend;
pub use frontend::FrontendError;
pub use message::Message;
pub use numbers::TwoInts;
pub use state::State;
pub use state::to_2d_index;
