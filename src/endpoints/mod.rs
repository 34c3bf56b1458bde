//! One descriptor per protocol step: how to render its request and how to read
//! its response.

pub mod access_token;
pub mod authenticate;
pub mod authorize;
pub mod common;
pub mod invalidate_token;
pub mod request_token;

pub use access_token::AccessTokenEndpoint;
pub use authenticate::AuthenticateEndpoint;
pub use authorize::AuthorizeEndpoint;
pub use common::{BodyError, EndpointError, EndpointRet};
pub use invalidate_token::InvalidateTokenEndpoint;
pub use request_token::RequestTokenEndpoint;
