//! Google BigQuery backend binding: one operator-fixed SQL statement as one MCP
//! tool, resource or prompt.
//!
//! The library holds what such a binding decides and computes, with its
//! contracts: the validation of a binding's spec ([`types`], [`plugin`]), the
//! requests to `jobs.query` and the marshalling of its rows ([`bigquery`],
//! [`table`]), the envelopes ([`envelope`], [`surface`]), the course of a call
//! ([`call`], [`params`], [`execute`]), the listing and completion queries
//! ([`listing`]), and what is reported of a call ([`observe`]). The outside
//! calls that it makes stand in [`outside`]. What the operations are for, as
//! laws over their inputs and results, stands in [`laws`].

pub mod arguments;
pub mod bigquery;
pub mod call;
pub mod decimal;
pub mod envelope;
pub mod execute;
pub mod json;
pub mod keyed;
pub mod laws;
pub mod listing;
pub mod observe;
pub mod outside;
pub mod params;
pub mod plugin;
pub mod surface;
pub mod table;
pub mod text;
pub mod types;

pub use plugin::BigQueryBackendPlugin;
pub use types::{
    validate_completion, validate_list_query, BigQueryAuth, BigQueryAuthMode, BigQueryBackendSpec,
    BigQueryQueryConfig, CompletionConfig as BigQueryCompletionConfig,
    ListQueryConfig as BigQueryListQueryConfig,
};
