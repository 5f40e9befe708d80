pub mod error;
pub mod middleware;
pub mod keys;
pub mod token;

pub use error::JwtAuthError;
pub use middleware::CheckJwtValid;
pub use middleware::JwtAuth;
pub use middleware::JwtAuthService;
pub use middleware::RequestInfo;
pub use middleware::key_source_from_env;
pub use token::strip_bearer;
