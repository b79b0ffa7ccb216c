//! Decoding of relationship timelines (followers / following) into pages of
//! normalized profiles, and the pure parts of the requests that fetch them.

pub mod profile;
pub mod timeline;
pub mod request;
