//! Port mappings at the gateway.

pub mod mapper;

pub use mapper::{PortMapper, PortMapperError};
