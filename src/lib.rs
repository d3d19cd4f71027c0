//! Building a single HTTP request, optionally signed with AWS SigV4.
//!
//! The library decides everything about the request: the signing scope, the
//! body that is sent (percent-encoded when signing needs it), the method
//! dispatch and the headers. A transport performs the request it describes.

pub mod percent;
pub mod opt;
pub mod request;
