//! Client-side logic for the zappy.sh URL shortener: what to send for each operation, and
//! what to print for each answer of the service.
//!
//! - [`api`]: creating an alias and fetching the request log of an alias.
//! - [`table`]: the log table, drawn by `comfy_table`.
//! - [`dates`]: reading the service's dates and writing them for the table.
//! - [`model`]: the values exchanged with the service, and the failures.
//! - [`text`]: containment of texts and decimal numerals.

pub mod api;
pub mod dates;
pub mod model;
pub mod table;
pub mod text;
