//! A typed client for the OAuth 1.0a three-legged authorization endpoints of the
//! Twitter API, with the response decoding shared by its resource endpoints.

pub mod callback;
pub mod codec;
pub mod endpoints;
pub mod envelope;
pub mod flow;
pub mod form;
pub mod json;
pub mod objects;
pub mod signer;
pub mod text;
pub mod utils;
pub mod v1;
pub mod v2;

pub use callback::CallbackUrlQuery;
pub use endpoints::{
    AccessTokenEndpoint, AuthenticateEndpoint, AuthorizeEndpoint, EndpointError, EndpointRet,
    InvalidateTokenEndpoint, RequestTokenEndpoint,
};
pub use objects::{
    AuthenticationAccessToken, AuthenticationRequestToken, ConsumerKey, ResponseBodyFail,
    ResponseBodyFailError, SigningSecrets,
};
pub use signer::{HttpMethod, HttpRequest};
pub use utils::build_authorization_url;
