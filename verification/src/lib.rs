//! A typed builder for arXiv API query URLs.
//!
//! A search request is modelled as plain data — facet-scoped search terms,
//! boolean combinators, an identifier list, pagination and sort directives —
//! and rendered into the query-string form the export API expects. Every
//! rendering function carries a contract that pins the produced text down
//! exactly, character for character.

pub mod query;
pub mod search;
pub mod text;

pub use query::Query;
pub use query::SortBy;
pub use query::SortOrder;
pub use search::SearchCriteria;
pub use search::SearchCriterion;
pub use search::SearchField;
