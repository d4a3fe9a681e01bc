//! Client-side query layer for RESO Web API (OData) servers: a structured
//! query model with a fluent builder, a serializer that renders a query as an
//! OData URL path, the replication-endpoint counterpart with its pagination
//! cursor, and a typed error taxonomy with an HTTP status classifier.

pub mod client;
pub mod error;
pub mod queries;
pub mod replication;
pub mod reso_api;
pub mod text;
pub mod urlenc;

pub use client::ClientConfig;
pub use error::ODataErrorDetail;
pub use error::ODataErrorResponse;
pub use error::ResoError;
pub use queries::Query;
pub use queries::QueryBuilder;
pub use queries::ReplicationQuery;
pub use queries::ReplicationQueryBuilder;
pub use replication::ReplicationResponse;
pub use reso_api::ODataResponse;
pub use reso_api::ResoApiConfig;
