//! Safe, typed surface for a native BitTorrent engine.
//!
//! The library holds the logic that can be checked: configuration
//! validation, the session lifecycle discipline, the translation of
//! native status codes into one error taxonomy, the metainfo-builder
//! planning, and the owned snapshot types with their invariants.
//! The native calls themselves live outside the library, which hands
//! them plain values and interprets what they return.

pub mod client;
pub mod error;
pub mod priority;
pub mod torrentbuilder;
pub mod torrentinfo;
pub mod torrentstats;

pub use client::Client;
pub use client::ClientConfig;
pub use error::Error;
pub use error::TrResult;
pub use priority::Priority;
pub use torrentbuilder::TorrentBuilder;
pub use torrentinfo::TorrentFile;
pub use torrentinfo::TorrentInfo;
pub use torrentinfo::TorrentPiece;
pub use torrentinfo::TrackerInfo;
pub use torrentstats::TorrentState;
pub use torrentstats::TorrentStats;
