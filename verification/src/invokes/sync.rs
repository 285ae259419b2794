//! The addresses of the synchronization server's services, and what its
//! answers mean for the caller.

use crate::types::session::CurrentUserPayload;
use crate::types::sync::ApiResponse;
use vstd::prelude::*;
use vstd::string::StringExecFns;

verus! {

/// The address of a service: the server's address followed by the
/// service's path.
pub fn endpoint(server_address: &str, path: &str) -> (url: String)
    ensures
        url@ == server_address@ + path@,
{
    let mut url = server_address.to_owned();
    url.append(path);
    url
}

/// Where a client asks whether its version is accepted.
pub const VERIFYING_PATH: &'static str = "/api/v1/sync/verifying";

/// Where the server tells its version.
pub const VERSION_PATH: &'static str = "/api/version";

/// Where a token is checked.
pub const AUTH_STATUS_PATH: &'static str = "/api/v1/auth/status";

/// Where a synchronization session is opened.
pub const SYNC_START_PATH: &'static str = "/api/v1/sync/start";

/// Where a chunk of records is sent.
pub const SYNC_CHUNK_PATH: &'static str = "/api/v1/sync/chunk";

/// Where a synchronization session is closed.
pub const SYNC_COMPLETE_PATH: &'static str = "/api/v1/sync/complete";

/// Where an icon is sent to.
pub const ICON_UPLOAD_PATH: &'static str = "/api/v1/icons/upload";

/// Below which icons are fetched.
pub const ICON_DOWNLOAD_PATH: &'static str = "/api/v1/icons/download/";

/// Where a user's icon of the given file name is fetched from.
pub fn icon_download_url(server_address: &str, user_uuid: &str, file_name: &str) -> (url: String)
    ensures
        url@ == server_address@ + ICON_DOWNLOAD_PATH@ + user_uuid@ + "/"@ + file_name@,
{
    let mut url = endpoint(server_address, ICON_DOWNLOAD_PATH);
    url.append(user_uuid);
    url.append("/");
    url.append(file_name);
    url
}

/// What a user lacks for a call to the server.
#[derive(Clone, Copy, Debug, PartialEq, Eq, Structural)]
pub enum MissingAccess {
    /// No server address is configured.
    ServerAddress,
    /// No token is held.
    Token,
}

/// What a call to the server needs of a user: the server's address and the
/// token, in this order. A user without an address fails on the address,
/// whether or not there is a token; one with an address and no token fails on
/// the token.
pub fn server_access(server_address: Option<String>, token: Option<String>) -> (r: Result<
    (String, String),
    MissingAccess,
>)
    ensures
        server_address is None ==> r == Err::<(String, String), MissingAccess>(
            MissingAccess::ServerAddress,
        ),
        server_address is Some && token is None ==> r == Err::<(String, String), MissingAccess>(
            MissingAccess::Token,
        ),
        server_address is Some && token is Some ==> r == Ok::<(String, String), MissingAccess>(
            (server_address.unwrap(), token.unwrap()),
        ),
{
    match server_address {
        Some(address) => match token {
            Some(held) => Ok((address, held)),
            None => Err(MissingAccess::Token),
        },
        None => Err(MissingAccess::ServerAddress),
    }
}

/// What the answer to a version check means: an answer that reports success
/// is handed on as it is; one that reports failure fails with the reason it
/// carries as its data. An answer that reports failure must carry one.
pub fn client_version_verdict(answer: ApiResponse<String>) -> (r: Result<
    ApiResponse<String>,
    String,
>)
    requires
        !answer.success ==> answer.data is Some,
    ensures
        answer.success ==> r == Ok::<ApiResponse<String>, String>(answer),
        !answer.success ==> r == Err::<ApiResponse<String>, String>(answer.data.unwrap()),
{
    if answer.success {
        Ok(answer)
    } else {
        Err(answer.data.unwrap())
    }
}

/// What the answer to a token check means.
pub struct TokenVerdict {
    /// The server's message: `Ok` where the token was accepted, `Err` where
    /// it was not.
    pub outcome: Result<String, String>,
    /// The user as the server knows them, where the token was accepted and
    /// the user's name is no longer the one the client holds.
    pub renamed: Option<CurrentUserPayload>,
}

/// What the answer to a token check means for a client that holds
/// `username`: the server's message, as success or failure, and, where the
/// token was accepted under another name, the user to tell the front end of.
/// An answer that reports success must carry the user.
pub fn token_verdict(username: &str, answer: ApiResponse<CurrentUserPayload>) -> (verdict:
    TokenVerdict)
    requires
        answer.success ==> answer.data is Some,
    ensures
        answer.success ==> verdict.outcome == Ok::<String, String>(answer.message),
        !answer.success ==> verdict.outcome == Err::<String, String>(answer.message),
        verdict.renamed is Some <==> answer.success && answer.data.unwrap().username@ != username@,
        verdict.renamed is Some ==> verdict.renamed == answer.data,
{
    if answer.success {
        let current_user_payload = answer.data.unwrap();
        let renamed = if current_user_payload.username == username.to_owned() {
            None
        } else {
            Some(current_user_payload)
        };
        TokenVerdict { outcome: Ok(answer.message), renamed }
    } else {
        TokenVerdict { outcome: Err(answer.message), renamed: None }
    }
}

} // verus!
