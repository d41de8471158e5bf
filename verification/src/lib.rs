//! Playback and timeline engine for a frame-indexed input log viewer.
//!
//! The library owns the stateful playback clock, the zoomable and pannable
//! viewport over frame space, the gesture resolver that turns pointer input
//! into view actions, and the immutable per-session data (events, mappings,
//! filters, search results).  All timing is expressed over an injected
//! nanosecond clock and all coordinates over integer pixel positions, so that
//! every operation is deterministic and fully specified.

pub mod config;
pub mod dialogs;
pub mod error;
pub mod filter;
pub mod log;
pub mod parser;
pub mod playback;
pub mod search;
pub mod state;
pub mod selection;
pub mod text;
pub mod timeline;

pub use config::ColorSettings;
pub use dialogs::{ClipboardFeedback, ErrorDialogAction, ErrorDialogState};
pub use error::{from_io_error, from_parse_error, AppError, IoErrorKind};
pub use filter::FilterState;
pub use log::{Bookmark, ButtonState, InputEvent, InputKind, InputLog, InputMapping, LogMetadata};
pub use parser::{parse_binary, BinaryEvent, BinaryHeader, ParseError};
pub use playback::PlaybackState;
pub use search::{find_matches, SearchQuery, SearchResult};
pub use selection::SelectionState;
pub use state::{AppState, SearchState, StatusKind, StatusMessage};
pub use timeline::{TimelineConfig, ViewAction};
