//! What the browser bridge answers and is asked with.

use vstd::prelude::*;
use crate::session::SessionManager;
use crate::text::option_text;

verus! {

/// The port of the browser bridge.
pub const WEB_SERVER_PORT: u16 = 25096;

/// The answer to a request: what was asked for, or why it cannot be had.
#[derive(Debug, PartialEq)]
pub struct ApiResponse<T> {
    pub success: bool,
    pub data: Option<T>,
    pub error: Option<String>,
}

impl<T> ApiResponse<T> {
    /// The answer that hands out what was asked for.
    pub fn success(data: T) -> (response: ApiResponse<T>)
        ensures
            response.success,
            response.data == Some(data),
            response.error.is_none(),
    {
        ApiResponse { success: true, data: Some(data), error: None }
    }

    /// The answer that says why the request failed.
    pub fn error(message: &str) -> (response: ApiResponse<T>)
        ensures
            !response.success,
            response.data.is_none(),
            option_text(response.error) == Some(message@),
    {
        ApiResponse { success: false, data: None, error: Some(message.to_owned()) }
    }
}

/// The token that a request shows.
#[derive(Clone, Debug, PartialEq)]
pub struct TokenQuery {
    pub token: String,
}

/// Lets a request through where it shows the token of the session that is
/// under way, and answers it with the reason where it does not.
pub fn validate_token(manager: &SessionManager, query: &TokenQuery) -> (checked: Result<
    (),
    ApiResponse<()>,
>)
    ensures
        checked.is_ok() <==> manager@ == Some(query.token@),
        checked matches Err(response) ==> !response.success && response.data.is_none()
            && option_text(response.error) == Some("Invalid session token"@),
{
    if !manager.validate_token(query.token.as_str()) {
        return Err(ApiResponse::error("Invalid session token"));
    }
    Ok(())
}

} // verus!
