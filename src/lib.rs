//! HTTP "problem details" error responses: a closed error taxonomy and a
//! total translation of each error into a status code, a content type and a
//! JSON body.
pub mod error;
pub mod json;
pub mod problem;
pub mod response;
