//! Client-side logic for submitting text pastes to a paste-hosting service:
//! the typed paste attributes, the form payload that carries a paste, and the
//! classification of the service's textual reply.

pub mod api;
pub mod attributes;
pub mod error;
pub mod request;
pub mod response;
pub mod text;

pub use api::{PastebinApi, PastebinBuilder};
pub use attributes::{ExpirationDate, VisibilityLevel};
pub use error::PastebinError;
pub use request::PasteRequest;
