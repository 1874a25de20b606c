//! The logic of a small URI shortener: decimal text of row identifiers,
//! paging of visit records, the records themselves and their JSON encoding,
//! the SQL statements of each storage procedure, and the decisions that each
//! HTTP route takes between its storage steps.

pub mod decimal;
pub mod http_structs;
pub mod paging;
pub mod structs;
pub mod routes;
pub mod storage;
pub mod route_laws;
pub mod storage_laws;
