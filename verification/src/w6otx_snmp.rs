//! The outlet types and the two operations on an outlet, in one place.

pub use crate::command::OutletControlCommand;
pub use crate::oid::{make_outlet_control_oid, make_outlet_status_oid};
pub use crate::outlet::Outlet;
pub use crate::service::{control_outlet, get_outlet_status};
pub use crate::status::OutletStatus;
