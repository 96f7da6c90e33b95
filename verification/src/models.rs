//! Plain data carriers shared with the surrounding web application.
//!
//! These mirror the rows and request bodies the HTTP layer exchanges with
//! its collaborators (relational store, authentication, pagination). The
//! publish pipeline itself only produces `Meme` rows through its own
//! `MemeRecord` (see the coordinator module).

use vstd::prelude::*;

verus! {

/// A stored meme row: the durable entity a successful publish creates.
pub struct Meme {
    pub id: i32,
    pub image_url: String,
}

/// One user's like of one meme.
pub struct Like {
    pub meme_id: i32,
    pub user_id: String,
}

/// Claims carried by a session token; `sub` is the opaque user identifier
/// the pipeline records as the creator of a published meme.
pub struct JWTClaims {
    pub exp: usize,
    pub is_admin: bool,
    pub sub: String,
    pub username: String,
}

/// The token endpoint's reply during the OAuth exchange.
pub struct TokenResponse {
    pub access_token: String,
    pub expires_in: Option<u64>,
    pub refresh_token: Option<String>,
    pub scope: Option<String>,
    pub token_type: String,
}

/// Query parameters of the OAuth callback.
pub struct OAuthCallback {
    pub code: Option<String>,
    pub error: Option<String>,
    pub state: Option<String>,
}

/// Cursor for paginated feed reads.
pub struct Pagination {
    pub offset: Option<i32>,
}

/// Body of a comment post.
pub struct PostCommentReq {
    pub content: String,
}

/// Body of a username change.
pub struct PutUserReq {
    pub username: String,
}

/// Body of an administrative user-creation call.
pub struct Request {
    pub email: String,
    pub is_admin: bool,
    pub password: String,
    pub username: String,
}

} // verus!
