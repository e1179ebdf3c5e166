//! Types and glue of the `lay3r:avs/task-queue` component world.
pub mod fmt;
pub mod http_resources;
pub mod http_types;
pub mod io_resources;
pub mod rt;
pub mod world;
pub mod abi;
pub mod abi_lower;
pub mod abi_requests;
