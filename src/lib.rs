//! Fetch-filter-decode pipeline for a feed of remote images: the feed
//! navigation, the accepted-location filter, the decode-and-pack worker step,
//! the fan-in of worker results and the retry policy, each with its contract.
//! Network access, concurrency and display live outside this library.

pub mod descriptor;
pub mod feed;
pub mod worker;
pub mod coordinator;
pub mod retry;
