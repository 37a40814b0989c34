//! Publishes current weather measurements of configured locations as metrics
//! in the plain-text exposition format.
//!
//! Each scrape fetches one payload per location; the library decodes the
//! payload (`openweathermap`), normalises its measurements into samples and
//! writes them into an explicit metric registry (`exporter`, `registry`),
//! then encodes the registry as text. Fetching and serving are left to the
//! caller, which hands over what each fetch returned.

pub mod config;
pub mod constants;
pub mod exporter;
pub mod json;
pub mod openweathermap;
pub mod registry;
pub mod routes;
pub mod text;
