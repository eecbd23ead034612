//! Half-hourly electricity tariff data: an index of priced intervals with
//! point and range queries, price statistics, region and URL configuration,
//! carbon-intensity period selection, and the retry and pagination policy
//! used to fetch the data from a rate-limited service.
pub mod error;
pub mod text;
pub mod time;
pub mod rates;
pub mod stats;
pub mod region;
pub mod retry;
pub mod config;
pub mod carbon;
pub mod theme;
pub mod state;
