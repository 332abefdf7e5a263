//! Core of a model-synchronisation server: the wire records and their
//! payload codec, the planning of client requests and of their replies, the
//! snapshot differ that decides when the asset list changed, and the
//! decisions of one client connection; and, for viewers, the models to keep
//! from a broadcast list and which of them to show.

pub mod codec;
pub mod connection;
pub mod differ;
pub mod protocol;
pub mod record;
pub mod viewer;
