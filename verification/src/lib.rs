//! Lookups and presentation of Pal records: a store of names in order with
//! fuzzy completion, the rules for reading what the upstream service
//! answers, and the text of the card that shows one Pal.

pub mod autocomplete;
pub mod error;
pub mod lookup;
pub mod model;
pub mod present;
pub mod state;
pub mod text;

pub use autocomplete::AutoCompleteEngine;
pub use error::PalError;
pub use model::{APIResponse, Aura, Pal, Suitability};
pub use state::State;
