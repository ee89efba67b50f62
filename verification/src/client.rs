//! The payload types of the browser client's API calls.
//!
//! The single-page client keeps track of each call's state and speaks the
//! same request and response shapes as the server routes; the shapes live
//! here, the networking outside.

use vstd::prelude::*;

use crate::args::ArgMap;

verus! {

/// The state of one API call, as the client tracks it.
pub enum ApiState<T> {
    Idle,
    Loading,
    Success(T),
    Error(String),
}

impl<T> Default for ApiState<T> {
    fn default() -> (r: Self)
        ensures
            r is Idle,
    {
        ApiState::Idle
    }
}

/// The token-issuance response.
pub struct TokenResponse {
    pub token: String,
}

/// A session's stored template and arguments, as a get answers them.
pub struct SessionDetail {
    pub template: String,
    pub args: ArgMap,
}

/// The owned create request.
pub struct UserSessionCreateRequest {
    pub session_id: String,
    pub template: String,
    pub args: Option<ArgMap>,
    pub expire_seconds: Option<u64>,
}

/// An update request: the full replacement argument map.
pub struct SessionUpdateRequest {
    pub args: ArgMap,
}

/// One entry of a session listing.
pub struct SessionListItem {
    pub session_id: String,
}

/// A session listing.
pub struct SessionListResponse {
    pub items: Vec<SessionListItem>,
}

/// The public create request.
pub struct PublicSessionCreateRequest {
    pub session_id: String,
    pub template: String,
    pub args: Option<ArgMap>,
    pub expire: Option<String>,
}

/// The public create response.
pub struct CreatePublicSessionResponse {
    pub session_id: String,
}

/// The owned create response.
pub struct CreateSessionResponse {
    pub user_id: String,
    pub session_id: String,
}

/// The claim set as the client reads it out of a token's payload.
pub struct Claims {
    pub sub: String,
    pub exp: u64,
    pub iat: u64,
    pub iss: String,
}

/// How many dots a text holds.
pub open spec fn spec_dot_count(s: Seq<char>) -> nat
    decreases s.len(),
{
    if s.len() == 0 {
        0
    } else {
        spec_dot_count(s.drop_last()) + (if s.last() == '.' {
            1nat
        } else {
            0nat
        })
    }
}

/// The payload segment of a compact token: the text between the two dots,
/// for a token of exactly three dot-separated segments.  The client
/// decodes its claims from this segment without checking the signature.
pub fn jwt_payload_segment(token: &str) -> (r: Option<String>)
    ensures
        (r is Some) <==> spec_dot_count(token@) == 2,
        r matches Some(p) ==> exists|i: int, j: int|
            {
                &&& 0 <= i < j < token@.len()
                &&& token@[i] == '.'
                &&& token@[j] == '.'
                &&& p@ == token@.subrange(i + 1, j)
                &&& forall|k: int|
                    0 <= k < token@.len() && token@[k] == '.' ==> k == i || k == j
            },
{
    let len = token.unicode_len();
    let mut count: usize = 0;
    let mut first: usize = 0;
    let mut second: usize = 0;
    let mut i: usize = 0;
    while i < len
        invariant
            i <= len,
            len == token@.len(),
            count == spec_dot_count(token@.take(i as int)),
            count <= i,
            count >= 1 ==> first < i && token@[first as int] == '.',
            count >= 2 ==> second < i && first < second && token@[second as int] == '.',
            count <= 2 ==> forall|k: int|
                0 <= k < i && token@[k] == '.' ==> (count >= 1 && k == first) || (count >= 2
                    && k == second),
        decreases len - i,
    {
        proof {
            assert(token@.take(i + 1).drop_last() =~= token@.take(i as int));
            assert(token@.take(i + 1).last() == token@[i as int]);
        }
        if token.get_char(i) == '.' {
            if count == 0 {
                first = i;
            } else if count == 1 {
                second = i;
            }
            count += 1;
        }
        i += 1;
    }
    proof {
        assert(token@.take(len as int) =~= token@);
    }
    if count != 2 {
        return None;
    }
    let p = token.substring_char(first + 1, second);
    let owned = p.to_owned();
    proof {
        assert(owned@ == token@.subrange(first + 1, second as int));
    }
    Some(owned)
}

/// The message the client shows for a failed response status, where the
/// status is a failure.
pub open spec fn spec_response_error(status: u16, error_body: Option<Seq<char>>) -> Option<
    Seq<char>,
> {
    if status == 401 {
        Some("토큰이 만료되었습니다. 다시 로그인하세요"@)
    } else if status == 403 {
        Some("권한이 없습니다. 세션 소유자만 수정할 수 있습니다"@)
    } else if status == 404 {
        Some("세션을 찾을 수 없습니다"@)
    } else if status == 409 {
        Some("이미 존재하는 세션 ID입니다"@)
    } else if status >= 400 {
        match error_body {
            Some(e) => Some(
                "["@ + crate::text::spec_dec(status as nat) + "] "@ + e,
            ),
            None => Some("요청 실패 ("@ + crate::text::spec_dec(status as nat) + ")"@),
        }
    } else {
        None
    }
}

/// Classifies a response for the client: a failure status maps to its
/// message (the known statuses to fixed text, any other failure to the
/// parsed error body or a generic line), a success to `None`.  On a 401
/// the client also drops its stored token.
pub fn response_error_message(status: u16, error_body: Option<&String>) -> (r: Option<String>)
    ensures
        match r {
            Some(m) => spec_response_error(
                status,
                match error_body {
                    Some(e) => Some(e@),
                    None => None,
                },
            ) == Some(m@),
            None => spec_response_error(
                status,
                match error_body {
                    Some(e) => Some(e@),
                    None => None,
                },
            ) is None,
        },
{
    if status == 401 {
        Some(String::from_str("토큰이 만료되었습니다. 다시 로그인하세요"))
    } else if status == 403 {
        Some(String::from_str("권한이 없습니다. 세션 소유자만 수정할 수 있습니다"))
    } else if status == 404 {
        Some(String::from_str("세션을 찾을 수 없습니다"))
    } else if status == 409 {
        Some(String::from_str("이미 존재하는 세션 ID입니다"))
    } else if status >= 400 {
        match error_body {
            Some(e) => {
                let mut m = String::from_str("[");
                m.append(crate::text::u64_to_dec(status as u64).as_str());
                m.append("] ");
                m.append(e.as_str());
                Some(m)
            },
            None => {
                let mut m = String::from_str("요청 실패 (");
                m.append(crate::text::u64_to_dec(status as u64).as_str());
                m.append(")");
                Some(m)
            },
        }
    } else {
        None
    }
}

} // verus!
