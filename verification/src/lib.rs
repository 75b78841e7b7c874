//! The cliban board's terminal front end, as a verified library: the board
//! model and every state transition a key or mouse gesture makes, the key
//! bindings, the raw-byte key parser behind headless and remote sessions,
//! the editor buffers, the list filters and sorts of the pages, the text
//! the screens show, and the data layer's rollups. Drawing, terminal I/O
//! and the store are the host's.

pub mod actions;
pub mod board;
pub mod buffer_laws;
pub mod buffers;
pub mod data;
pub mod display;
pub mod input;
pub mod keybinds;
pub mod keys;
pub mod laws;
pub mod lines;
pub mod listing_laws;
pub mod model;
pub mod order;
pub mod palette;
pub mod overlays;
pub mod page_views;
pub mod pages;
pub mod picker;
pub mod remote;
pub mod rows;
pub mod runtime;
pub mod session;
pub mod sorting;
pub mod stamps;
pub mod steps;
pub mod text;
pub mod theme;
pub mod update;
pub mod views;
