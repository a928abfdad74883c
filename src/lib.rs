//! Client logic for listing the repositories of a user on a source-hosting
//! service and for changing their visibility: query construction, the
//! cursor-driven paginator, parsing of change requests, the per-item
//! mutation bookkeeping and the text table of a listing.
pub mod text;
pub mod query;
pub mod repo;
pub mod paginate;
pub mod listing;
pub mod change;
pub mod cli;
pub mod table;
