//! Route-building helpers, re-exported under one roof: scopes and the
//! per-method leaf constructors.

pub use crate::resolver::node::delete;
pub use crate::resolver::node::get;
pub use crate::resolver::node::patch;
pub use crate::resolver::node::post;
pub use crate::resolver::node::put;
pub use crate::resolver::node::scope;
pub use crate::resolver::node::try_scope;
