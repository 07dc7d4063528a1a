//! Facade over a light-wallet engine: network parameter resolution, seed
//! phrase utilities, and the single active wallet session.

pub mod encoding;
pub mod params;
pub mod seed;
pub mod session;

pub use params::{get_address_params, CustomParams, JsAddressParameters};
pub use seed::{
    check_seed_phrase, get_seed_phrase, get_seed_phrase_from_entropy,
    get_seed_phrase_from_entropy_b64,
};
pub use session::Session;
