//! A minimal record store: each author keeps blog posts at addresses derived
//! from the author's identity and a short slug, and only the author may edit
//! or delete them.

pub mod address;
pub mod derivation;
pub mod laws;
pub mod post;
pub mod store;

pub use address::Address;
pub use derivation::derive_post_address;
pub use post::{BlogError, Post};
pub use store::{create_post, delete, edit_post, CreatePost, Delete, EditPost, PostStore};
