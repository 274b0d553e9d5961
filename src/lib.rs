//! Keystroke telemetry: classification of raw key presses, word and
//! paragraph counting, per-minute per-application aggregation, and typing
//! sessions with words-per-minute tracking.

pub mod aggregator;
pub mod counter;
pub mod event;
pub mod export;
pub mod listener;
pub mod metrics;
pub mod platform;
pub mod record;
pub mod session;
pub mod text;

pub use aggregator::KeystrokeAggregator;
pub use counter::KeystrokeCounter;
pub use event::{ActiveApp, BrowserContext, KeyEvent, KeyEventType, RawKey};
pub use export::ExportFormat;
pub use listener::{AppCache, Listener, ListenerError};
pub use metrics::TimeRange;
pub use platform::PlatformError;
pub use record::KeystrokeRecord;
pub use session::{SessionTracker, TypingSession};
