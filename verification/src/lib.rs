//! Rate-limited batch resolution and bounded-concurrency re-upload pipeline
//! for remote binary assets.
//!
//! The pipeline turns a list of numeric asset identifiers into metadata
//! records (discovering the authorization context each asset must be queried
//! under), then re-uploads the payloads under a new owner, producing an
//! old-ID to new-ID mapping. Every remote call is asynchronous and performed
//! by a driver outside this crate; this crate holds the verified decision
//! logic: chunking, partitioning, the context cache, the retry state
//! machines, the shared rate-limit deadline, the admission gate and the
//! result aggregation.

pub mod assoc;
pub mod batching;
pub mod builder;
pub mod context_cache;
pub mod errors;
pub mod fetch;
pub mod gate;
pub mod mapping;
pub mod rate_limiter;
pub mod records;
pub mod script_types;
pub mod resolver;
pub mod upload;

pub use builder::StudioParserBuilder;
pub use errors::ApiError;
pub use errors::ResolveError;
pub use rate_limiter::RateLimiter;
pub use script_types::ScriptType;
