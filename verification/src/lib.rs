//! Request dispatch core of a small web-serving toolkit: route patterns,
//! a guarded route tree with backtracking resolution, middleware ordering,
//! a per-request extension store, and router-level defaults.

pub mod error;
pub mod extensions;
pub mod extractors;
pub mod http;
pub mod middleware;
pub mod node;
pub mod params;
pub mod pattern;
pub mod resolver;
pub mod router;
pub mod text;

pub use error::HttpError;
pub use error::PatternError;
pub use error::RegisterError;
pub use extractors::BodyOwned;
pub use http::Request;
pub use http::Response;
pub use params::RequestParams;
pub use pattern::Pattern;
pub use resolver::ctx::ResolveContext;
pub use resolver::node::Node;
pub use resolver::node::Resolver;
pub use resolver::pattern_guard::PatternGuard;
pub use router::Dispatch;
pub use router::Router;
