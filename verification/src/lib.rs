//! Outage information scraped from a transit operator's status page, and the
//! demand-driven policy that decides when the page is read again.
//!
//! - `text`: white space, trimming, and the splitting of a time window.
//! - `record`: the published records and lines, and their placeholders.
//! - `markup`: what is relied on of the markup parser and its selectors.
//! - `scrape`: from the markup of the page to its records and lines.
//! - `clock`: points in time, and the reading of the clock.
//! - `state`: the snapshot, the last request, and what acts on them.

pub mod clock;
pub mod markup;
pub mod record;
pub mod scrape;
pub mod state;
pub mod text;
