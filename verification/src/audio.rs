//! The audio side of the crate: the spectral magnitude reduction, the
//! sensitivity tracker, the input-device bookkeeping and the session state
//! machine.

pub mod analyzer;
pub mod error;
pub mod handler;
pub mod sensitivity;
pub mod session;
pub mod status;

pub use error::AudioResult;
pub use handler::AudioHandler;
pub use handler::StreamSettings;
pub use sensitivity::SensitivityState;
pub use session::AudioHandlerResult;
pub use session::AudioMessage;
pub use session::SessionOutcome;
pub use status::AudioStatus;
