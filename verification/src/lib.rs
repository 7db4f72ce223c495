//! Search-and-browse orchestration core of a terminal music client.
//!
//! The library holds the verified logic of the client: the top-level view
//! state machine, the playlist-search sub-view, the paginated browse
//! sub-view, and the arithmetic and supersession rules that tie them to the
//! background fetch tasks. All terminal, network and timer work lives in the
//! surrounding binary, which hands this library plain values (keys, input
//! lines, fetch outcomes) and reads plain values back.

pub mod app;
pub mod browse;
pub mod cursor;
pub mod keys;
pub mod playlist_search;
pub mod search;
pub mod text;
