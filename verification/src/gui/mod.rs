//! The desktop front end's model: the commands it sends, the view it is given, cover art.
pub mod cover;
pub mod runtime;
pub mod snapshot;
