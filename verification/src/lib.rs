//! Assembly of an OpenAPI 3 document from the operations of an API, registered one by one,
//! and from the JSON schemas of the types that the operations mention.

pub mod assemble;
pub mod gen;
pub mod laws;
pub mod okapi_specs;
pub mod operation_id;
pub mod path_item;
pub mod registry;
pub mod resolve;
pub mod rocket_specs;
pub mod schemars_specs;
pub mod tables;

pub use registry::OperationInfo;
