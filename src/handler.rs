use vstd::prelude::*;
use vstd::string::*;

use crate::error::PsqlError;
use crate::models::{LoginPayload, UserPassword};
use crate::psql::validate_user;
use crate::response::{build_http_response, response_bytes};
use crate::route::{classify, is_delayed, is_delayed_spec, payload_of, request_payload, route_of, Route};
use crate::status::{STATUS_200, STATUS_401, STATUS_404, STATUS_500};

verus! {

/// The body of a successful login.
pub const LOGIN_SUCCESS_BODY: &'static str = "{\"success\":true}";

/// Content type of the HTML pages.
pub const CONTENT_TYPE_HTML: &'static str = "text/html; charset=UTF-8";

/// Content type of the favicon.
pub const CONTENT_TYPE_ICON: &'static str = "image/x-icon";

/// Content type of a login answer.
pub const CONTENT_TYPE_JSON: &'static str = "application/json";

/// The statuses that the server answers with.
#[derive(Debug, Clone, Copy, PartialEq, Eq, Structural)]
pub enum Status {
    Success,
    Unauthorized,
    NotFound,
    InternalError,
}

/// The files that the server sends as bodies.
#[derive(Debug, Clone, Copy, PartialEq, Eq, Structural)]
pub enum Asset {
    Home,
    Favicon,
    NotFound,
    Unauthorized,
}

/// What to do next with a connection.
#[derive(Debug)]
pub enum Action {
    /// Send the file of an asset as the body, after the slow route's delay
    /// where `delayed` holds.
    SendAsset { asset: Asset, delayed: bool },
    /// Check the credentials in this JSON payload, then answer by `login_action`.
    CheckLogin(Vec<u8>),
    /// Send a fixed body.
    SendBody { status: Status, body: &'static str, content_type: &'static str },
}

/// The status line of a status.
pub open spec fn status_line_spec(s: Status) -> &'static str {
    match s {
        Status::Success => STATUS_200,
        Status::Unauthorized => STATUS_401,
        Status::NotFound => STATUS_404,
        Status::InternalError => STATUS_500,
    }
}

/// The status that an asset is sent with.
pub open spec fn asset_status_spec(a: Asset) -> Status {
    match a {
        Asset::Home => Status::Success,
        Asset::Favicon => Status::Success,
        Asset::NotFound => Status::NotFound,
        Asset::Unauthorized => Status::Unauthorized,
    }
}

/// The content type that an asset is sent with.
pub open spec fn asset_content_type_spec(a: Asset) -> &'static str {
    match a {
        Asset::Favicon => CONTENT_TYPE_ICON,
        _ => CONTENT_TYPE_HTML,
    }
}

impl Status {
    /// The status line of the status.
    pub fn line(&self) -> (r: &'static str)
        ensures
            r == status_line_spec(*self),
    {
        match self {
            Status::Success => STATUS_200,
            Status::Unauthorized => STATUS_401,
            Status::NotFound => STATUS_404,
            Status::InternalError => STATUS_500,
        }
    }
}

impl Asset {
    /// The status that the asset is sent with.
    pub fn status(&self) -> (r: Status)
        ensures
            r == asset_status_spec(*self),
    {
        match self {
            Asset::Home => Status::Success,
            Asset::Favicon => Status::Success,
            Asset::NotFound => Status::NotFound,
            Asset::Unauthorized => Status::Unauthorized,
        }
    }

    /// The content type that the asset is sent with.
    pub fn content_type(&self) -> (r: &'static str)
        ensures
            r == asset_content_type_spec(*self),
    {
        match self {
            Asset::Favicon => CONTENT_TYPE_ICON,
            _ => CONTENT_TYPE_HTML,
        }
    }
}

/// Decides what to do with a request, given the bytes read from the
/// connection: serve the homepage (after a delay on the slow route) or the
/// favicon, check a login, or answer that nothing was found.
pub fn process_request(request: &[u8]) -> (r: Action)
    ensures
        match route_of(request@) {
            Route::Homepage => r == (Action::SendAsset {
                asset: Asset::Home,
                delayed: is_delayed_spec(request@),
            }),
            Route::Favicon => r == (Action::SendAsset { asset: Asset::Favicon, delayed: false }),
            Route::BadRequest => r == (Action::SendAsset { asset: Asset::NotFound, delayed: false }),
            Route::Login => r is CheckLogin && payload_of(request@) == Some(r->CheckLogin_0@),
        },
{
    match classify(request) {
        Route::Homepage => Action::SendAsset { asset: Asset::Home, delayed: is_delayed(request) },
        Route::Favicon => Action::SendAsset { asset: Asset::Favicon, delayed: false },
        Route::BadRequest => Action::SendAsset { asset: Asset::NotFound, delayed: false },
        Route::Login => match request_payload(request) {
            Some(p) => Action::CheckLogin(p),
            None => Action::SendAsset { asset: Asset::NotFound, delayed: false },
        },
    }
}

/// How the server answers a login attempt: success with a fixed JSON body,
/// an unknown user or a wrong password with the unauthorized page, and a
/// failing backend with an empty internal-error answer.
pub fn login_action(outcome: &Result<(), PsqlError>) -> (r: Action)
    ensures
        match outcome {
            Ok(_) => r == (Action::SendBody {
                status: Status::Success,
                body: LOGIN_SUCCESS_BODY,
                content_type: CONTENT_TYPE_JSON,
            }),
            Err(PsqlError::RowNotFound) | Err(PsqlError::PasswordMismatch) => r == (
            Action::SendAsset { asset: Asset::Unauthorized, delayed: false }),
            Err(PsqlError::SqlxError(_)) => r == (Action::SendBody {
                status: Status::InternalError,
                body: "",
                content_type: CONTENT_TYPE_HTML,
            }),
        },
{
    match outcome {
        Ok(_) => Action::SendBody {
            status: Status::Success,
            body: LOGIN_SUCCESS_BODY,
            content_type: CONTENT_TYPE_JSON,
        },
        Err(PsqlError::RowNotFound) | Err(PsqlError::PasswordMismatch) => Action::SendAsset {
            asset: Asset::Unauthorized,
            delayed: false,
        },
        Err(PsqlError::SqlxError(_)) => Action::SendBody {
            status: Status::InternalError,
            body: "",
            content_type: CONTENT_TYPE_HTML,
        },
    }
}

/// Checks a login attempt against what the backend returned for its user
/// name, and decides the answer.
pub fn login_reply(fetched: Result<UserPassword, PsqlError>, user: &LoginPayload) -> (r: Action)
    ensures
        match fetched {
            Err(PsqlError::SqlxError(_)) => r == (Action::SendBody {
                status: Status::InternalError,
                body: "",
                content_type: CONTENT_TYPE_HTML,
            }),
            Err(_) => r == (Action::SendAsset { asset: Asset::Unauthorized, delayed: false }),
            Ok(row) => if row.pwd@.len() > 0 && row.pwd@ == user.pwd@ {
                r == (Action::SendBody {
                    status: Status::Success,
                    body: LOGIN_SUCCESS_BODY,
                    content_type: CONTENT_TYPE_JSON,
                })
            } else {
                r == (Action::SendAsset { asset: Asset::Unauthorized, delayed: false })
            },
        },
{
    let outcome = validate_user(fetched, user);
    login_action(&outcome)
}

/// The response that carries an asset's file contents.
pub fn asset_response(asset: Asset, contents: &[u8]) -> (r: Vec<u8>)
    ensures
        r@ == response_bytes(
            status_line_spec(asset_status_spec(asset))@,
            contents@,
            asset_content_type_spec(asset)@,
        ),
{
    build_http_response(asset.status().line(), contents, asset.content_type())
}

/// The response that carries a fixed body.
pub fn body_response(status: Status, body: &str, content_type: &str) -> (r: Vec<u8>)
    ensures
        r@ == response_bytes(status_line_spec(status)@, body.spec_bytes(), content_type@),
{
    build_http_response(status.line(), body.as_bytes(), content_type)
}

} // verus!
