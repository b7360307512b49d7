//! Verified core of the UCX/UCP bindings.
use vstd::prelude::*;

pub mod am;
pub mod bindings_dt;
pub mod context;
pub mod cstring;
pub mod dt;
pub mod ep;
pub mod flag_laws;
pub mod listener;
pub mod memh;
pub mod request;
pub mod rma;
pub mod sockaddr;
pub mod status;
pub mod stream;
pub mod tag;
pub mod types;
pub mod version;
pub mod worker;

pub use request::Request;
pub use status::{status_from_ptr, status_ptr_to_result, status_to_result, ucs_status_t};
pub use types::{ucs_memory_type_t, ucs_thread_mode_t};

verus! {
}
