//! Protocol engine for the TimeFlip2 time-tracking cube.
//!
//! The crate holds the typed command and result codec, the history record
//! decoder, the notification decoder and the decisions of the configuration
//! synchronisation, all stated over byte sequences and proved against their
//! contracts. Talking to the Bluetooth stack is left to the caller.

pub mod config;
pub mod time;
pub mod timeflip;
pub mod types;
pub mod view;
pub mod wire;

pub use config::Config;
pub use types::{
    BlinkInterval, BlinkIntervalError, Color, Facet, FacetError, FacetTask, Minutes, Percent,
    PercentError,
};
