//! Core of a small marketplace service: users, posts, and the in-memory
//! store that holds the feed and enforces its invariants.

pub mod data;
pub mod error;
pub mod post;
mod trusted;
pub mod user;
pub mod verification;

pub use data::{Data, DataView, FEED_PAGE_SIZE};
pub use error::StoreError;
pub use post::{Post, PostState, PostType, PostView, TimeType};
pub use user::{User, UserView};
