//! A local bridge between a desktop shell and a companion HTTP server,
//! together with a log-tailing pipeline.
//!
//! The crate holds the verified core: the port-scan protocol that discovers
//! the companion server by a secret handshake, the classification of relay
//! responses, and the locate/classify/tail logic for the application's log
//! file. All network and file I/O stays outside, in a thin driver that feeds
//! these functions plain values and performs the actions they decide on.

pub mod logs;
pub mod relay;
pub mod scan;
pub mod tail;
pub mod text;
