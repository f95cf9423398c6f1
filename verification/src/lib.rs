//! Verified core of a karaoke-store directory crawler: validated identifier
//! types for prefectures and cities, a typed store record model, and the two
//! page parsers (city discovery and store listings) with fail-fast,
//! all-or-nothing error aggregation.
pub mod codes;
pub mod errors;
pub mod index_page;
pub mod listing_page;
pub mod model;
pub mod numtext;
pub mod patterns;
