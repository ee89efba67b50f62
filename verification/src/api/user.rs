//! Owned session endpoints: create, get, update, list.
//!
//! Every operation first holds the authenticated subject against the
//! path's `user_id`; a mismatch is `Forbidden`, whatever else the request
//! carries.

use vstd::prelude::*;

use crate::args::ArgMap;
use crate::errors::ApiError;
use crate::keys::spec_extract_session_ids;
use crate::session_data::SessionData;
use crate::{ListResponse, SessionDetailInfo, SessionInfo};

verus! {

/// The owned create request body.
#[derive(Debug)]
pub struct CreateSessionRequest {
    pub session_id: String,
    pub template: String,
    pub args: ArgMap,
    pub ttl_seconds: u64,
}

/// The owned create response payload.
#[derive(Debug)]
pub struct CreateSessionResponse {
    pub user_id: String,
    pub session_id: String,
}

/// The refresh window of owned sessions, in seconds, used wherever the
/// request does not carry one.
pub fn default_ttl() -> (r: u64)
    ensures
        r == 3600,
{
    3600
}

/// Decides an owned create: the subject must be the path's user, the id
/// must be non-empty, and the stored session carries the request's
/// template and arguments verbatim with the user as owner.
pub fn prepare_create_user_session(subject: &str, user_id: &str, req: CreateSessionRequest) -> (r:
    Result<SessionData, ApiError>)
    ensures
        subject@ != user_id@ ==> (r matches Err(e) && e is Forbidden),
        subject@ == user_id@ && req.session_id@.len() == 0 ==> (r matches Err(e)
            && e is InvalidSessionId),
        subject@ == user_id@ && req.session_id@.len() > 0 ==> (r matches Ok(s) && {
            &&& s.template@ == req.template@
            &&& s.args == req.args
            &&& s.owner matches Some(o) && o@ == user_id@
        }),
{
    crate::auth::authorize_user(subject, user_id)?;
    if req.session_id.as_str().unicode_len() == 0 {
        return Err(ApiError::InvalidSessionId);
    }
    Ok(SessionData::new_with_owner(req.template, req.args, user_id.to_owned()))
}

/// Decides an owned get: authorization first, then the stored values
/// verbatim or `SessionNotFound`.
pub fn user_session_response(
    subject: &str,
    user_id: &str,
    session_id: String,
    found: Option<SessionData>,
) -> (r: Result<SessionDetailInfo, ApiError>)
    ensures
        subject@ != user_id@ ==> (r matches Err(e) && e is Forbidden),
        subject@ == user_id@ ==> r == crate::api::session::spec_get_session_response(
            session_id,
            found,
        ),
{
    crate::auth::authorize_user(subject, user_id)?;
    crate::api::session::get_session_response(session_id, found)
}

/// Decides an owned update: authorization first, then the arguments
/// replaced wholesale and the TTL reset to the fixed server default.
pub fn apply_user_update(
    subject: &str,
    user_id: &str,
    session_id: String,
    found: Option<SessionData>,
    new_args: ArgMap,
) -> (r: Result<(SessionData, u64), ApiError>)
    ensures
        subject@ != user_id@ ==> (r matches Err(e) && e is Forbidden),
        subject@ == user_id@ ==> r == crate::api::session::spec_apply_update(
            session_id,
            found,
            new_args,
        ),
{
    crate::auth::authorize_user(subject, user_id)?;
    crate::api::session::apply_update(session_id, found, new_args)
}

/// Decides an owned list: authorization first, then one item per scanned
/// key carrying the user's prefix, in scan order, stripped to the bare
/// session id.
pub fn sessions_list_response(subject: &str, user_id: &str, keys: &Vec<String>) -> (r: Result<
    ListResponse<SessionInfo>,
    ApiError,
>)
    ensures
        subject@ != user_id@ ==> (r matches Err(e) && e is Forbidden),
        subject@ == user_id@ ==> (r matches Ok(list) && {
            let ids = spec_extract_session_ids(keys.deep_view(), user_id@);
            &&& list.items@.len() == ids.len()
            &&& forall|i: int|
                0 <= i < ids.len() ==> #[trigger] list.items@[i].session_id@ == ids[i]
        }),
{
    crate::auth::authorize_user(subject, user_id)?;
    let ids = crate::keys::extract_session_ids(keys, user_id);
    let n = ids.len();
    let mut items: Vec<SessionInfo> = Vec::new();
    let mut i: usize = 0;
    while i < n
        invariant
            i <= n,
            n == ids@.len(),
            ids.deep_view() == spec_extract_session_ids(keys.deep_view(), user_id@),
            items@.len() == i,
            forall|j: int| 0 <= j < i ==> #[trigger] items@[j].session_id@ == ids.deep_view()[j],
        decreases n - i,
    {
        items.push(SessionInfo { session_id: ids[i].clone() });
        i += 1;
    }
    Ok(ListResponse { items })
}

} // verus!
