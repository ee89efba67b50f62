//! The error taxonomy of the service and its mapping to HTTP status codes.

use vstd::prelude::*;

verus! {

/// Every failure a request can surface.  Variants that wrap a lower-level
/// failure carry its rendered message; the verified logic never inspects
/// those messages, only the variant.
#[derive(Debug)]
pub enum ApiError {
    Argon2(String),
    Argon2PasswordHash(String),
    Redis(String),
    Json(String),
    SessionExists(String),
    SessionNotFound(String),
    InvalidSessionId,
    InvalidExpire(String),
    InvalidDuration(String),
    Unauthorized(String),
    Forbidden(String),
    InternalError(String),
    RedisError(String),
    Unexpected(String),
}

impl ApiError {
    /// The HTTP status each error surfaces as.
    pub open spec fn spec_status(&self) -> int {
        match self {
            ApiError::Argon2(_) => 500,
            ApiError::Argon2PasswordHash(_) => 500,
            ApiError::Redis(_) => 500,
            ApiError::Json(_) => 500,
            ApiError::SessionExists(_) => 409,
            ApiError::SessionNotFound(_) => 404,
            ApiError::InvalidSessionId => 400,
            ApiError::InvalidExpire(_) => 400,
            ApiError::InvalidDuration(_) => 400,
            ApiError::Unauthorized(_) => 401,
            ApiError::Forbidden(_) => 403,
            ApiError::InternalError(_) => 500,
            ApiError::RedisError(_) => 500,
            ApiError::Unexpected(_) => 500,
        }
    }

    pub fn status_code(&self) -> (r: u16)
        ensures
            r == self.spec_status(),
    {
        match self {
            ApiError::Argon2(_) => 500,
            ApiError::Argon2PasswordHash(_) => 500,
            ApiError::Redis(_) => 500,
            ApiError::Json(_) => 500,
            ApiError::SessionExists(_) => 409,
            ApiError::SessionNotFound(_) => 404,
            ApiError::InvalidSessionId => 400,
            ApiError::InvalidExpire(_) => 400,
            ApiError::InvalidDuration(_) => 400,
            ApiError::Unauthorized(_) => 401,
            ApiError::Forbidden(_) => 403,
            ApiError::InternalError(_) => 500,
            ApiError::RedisError(_) => 500,
            ApiError::Unexpected(_) => 500,
        }
    }

    /// The human-readable message of this error, as the JSON error body
    /// carries it.
    pub open spec fn spec_message(&self) -> Seq<char> {
        match self {
            ApiError::Argon2(m) => "암호화 오류: "@ + m@,
            ApiError::Argon2PasswordHash(m) => "암호화 해시 오류: "@ + m@,
            ApiError::Redis(m) => "Redis 오류: "@ + m@,
            ApiError::Json(m) => "직렬화 오류: "@ + m@,
            ApiError::SessionExists(id) => "이미 존재하는 세션 ID 입니다: "@ + id@,
            ApiError::SessionNotFound(id) => "세션을 찾을 수 없습니다: "@ + id@,
            ApiError::InvalidSessionId => "세션 ID는 비어 있을 수 없습니다"@,
            ApiError::InvalidExpire(m) => m@,
            ApiError::InvalidDuration(m) => m@,
            ApiError::Unauthorized(m) => m@,
            ApiError::Forbidden(m) => m@,
            ApiError::InternalError(m) => m@,
            ApiError::RedisError(m) => "Redis 오류: "@ + m@,
            ApiError::Unexpected(m) => "예상하지 못한 오류입니다: "@ + m@,
        }
    }

    pub fn message(&self) -> (r: String)
        ensures
            r@ == self.spec_message(),
    {
        match self {
            ApiError::Argon2(m) => {
                let mut s = String::from_str("암호화 오류: ");
                s.append(m.as_str());
                s
            },
            ApiError::Argon2PasswordHash(m) => {
                let mut s = String::from_str("암호화 해시 오류: ");
                s.append(m.as_str());
                s
            },
            ApiError::Redis(m) => {
                let mut s = String::from_str("Redis 오류: ");
                s.append(m.as_str());
                s
            },
            ApiError::Json(m) => {
                let mut s = String::from_str("직렬화 오류: ");
                s.append(m.as_str());
                s
            },
            ApiError::SessionExists(id) => {
                let mut s = String::from_str("이미 존재하는 세션 ID 입니다: ");
                s.append(id.as_str());
                s
            },
            ApiError::SessionNotFound(id) => {
                let mut s = String::from_str("세션을 찾을 수 없습니다: ");
                s.append(id.as_str());
                s
            },
            ApiError::InvalidSessionId => String::from_str("세션 ID는 비어 있을 수 없습니다"),
            ApiError::InvalidExpire(m) => m.clone(),
            ApiError::InvalidDuration(m) => m.clone(),
            ApiError::Unauthorized(m) => m.clone(),
            ApiError::Forbidden(m) => m.clone(),
            ApiError::InternalError(m) => m.clone(),
            ApiError::RedisError(m) => {
                let mut s = String::from_str("Redis 오류: ");
                s.append(m.as_str());
                s
            },
            ApiError::Unexpected(m) => {
                let mut s = String::from_str("예상하지 못한 오류입니다: ");
                s.append(m.as_str());
                s
            },
        }
    }
}

} // verus!
