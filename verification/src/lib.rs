//! A layered configuration-profile store.
//!
//! The crate keeps a collection of named profile records ([`item::PrfItem`]),
//! tracks which one is active, maintains an ordered chain of override
//! documents applied on top of it, and resolves all of this into a single
//! activation snapshot ([`activate::PrfActivate`]) for a downstream consumer.
//!
//! The store itself is pure in-memory logic: reading and writing the backing
//! files, as well as (de)serializing the documents, is left to the caller,
//! which sequences a persistence step after every mutation.

pub mod activate;
pub mod error;
pub mod item;
pub mod laws;
pub mod profiles;

pub use activate::PrfActivate;
pub use error::PrfError;
pub use item::ChainItem;
pub use item::PrfExtra;
pub use item::PrfItem;
pub use item::PrfOption;
pub use item::PrfSelected;
pub use profiles::FileWrite;
pub use profiles::IProfiles;
