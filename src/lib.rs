//! Registration payload of a client application: the permission scopes it
//! may request, the finished descriptor, and the builder that validates it.
pub mod apps;
pub mod errors;
