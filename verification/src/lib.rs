//! DOM-XSS proof-of-concept planning: classification of DOM taint sources,
//! payload and PoC-URL construction, manual reproduction hints, script
//! extraction from HTML, and the bounded external-script fetch policy.
pub mod cmd;
pub mod scanning;
pub mod text;
pub mod weburl;
