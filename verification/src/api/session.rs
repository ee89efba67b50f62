//! Public session endpoints: create, get, update.

use vstd::prelude::*;

use crate::args::ArgMap;
use crate::errors::ApiError;
use crate::session_data::SessionData;
use crate::text::spec_trim;
use crate::SessionDetailInfo;

verus! {

/// What humantime's `parse_duration` returns for a duration text, in whole
/// seconds, or `None` where the text is rejected.
pub uninterp spec fn duration_secs_of(s: Seq<char>) -> Option<u64>;

/// Relies on `humantime::parse_duration`: the whole-second part of the
/// parsed duration.
#[verifier::external_body]
fn parse_duration_secs(s: &str) -> (r: Option<u64>)
    ensures
        r == duration_secs_of(s@),
{
    humantime::parse_duration(s).ok().map(|d| d.as_secs())
}

/// The create request body: an id, a template, optional arguments, and an
/// optional human-readable expiry (one day when absent).
#[derive(Debug)]
pub struct CreateBody {
    pub session_id: String,
    pub template: String,
    pub args: Option<ArgMap>,
    pub expire: Option<String>,
}

/// What an admitted create stores: the trimmed id keys the session and
/// names its topic.
#[derive(Debug)]
pub struct CreatePlan {
    pub session_id: String,
    pub session: SessionData,
    pub ttl_seconds: u64,
}

/// The expiry text the request carries, with its default.
pub open spec fn spec_expire_text(expire: Option<String>) -> Seq<char> {
    match expire {
        Some(e) => e@,
        None => "1d"@,
    }
}

/// Decides a public create.  The id is trimmed and must be non-empty; the
/// expiry must parse; a duplicate id (the store already holds the key) is
/// rejected; otherwise the stored session carries the request's template
/// and arguments verbatim, with no owner.
pub fn prepare_create_session(body: CreateBody, exists: bool) -> (r: Result<CreatePlan, ApiError>)
    ensures
        spec_trim(body.session_id@).len() == 0 ==> (r matches Err(e) && e is InvalidSessionId),
        spec_trim(body.session_id@).len() > 0 && duration_secs_of(
            spec_expire_text(body.expire),
        ) is None ==> (r matches Err(e) && e is InvalidDuration),
        spec_trim(body.session_id@).len() > 0 && duration_secs_of(
            spec_expire_text(body.expire),
        ) is Some && exists ==> (r matches Err(e) && e matches ApiError::SessionExists(s) && s@
            == spec_trim(body.session_id@)),
        spec_trim(body.session_id@).len() > 0 && duration_secs_of(
            spec_expire_text(body.expire),
        ) is Some && !exists ==> (r matches Ok(p) && {
            &&& p.session_id@ == spec_trim(body.session_id@)
            &&& Some(p.ttl_seconds) == duration_secs_of(spec_expire_text(body.expire))
            &&& p.session.template@ == body.template@
            &&& p.session.owner is None
            &&& (body.args matches Some(a) ==> p.session.args == a)
            &&& (body.args is None ==> p.session.args.wf() && p.session.args.spec_len() == 0)
        }),
{
    let trimmed = crate::text::trim(body.session_id.as_str());
    if trimmed.as_str().unicode_len() == 0 {
        return Err(ApiError::InvalidSessionId);
    }
    let parsed = match &body.expire {
        Some(e) => parse_duration_secs(e.as_str()),
        None => parse_duration_secs("1d"),
    };
    let ttl_seconds = match parsed {
        Some(t) => t,
        None => {
            return Err(ApiError::InvalidDuration(String::from_str("invalid duration")));
        },
    };
    if exists {
        return Err(ApiError::SessionExists(trimmed));
    }
    let args = match body.args {
        Some(a) => a,
        None => ArgMap::new(),
    };
    Ok(
        CreatePlan {
            session_id: trimmed,
            session: SessionData::new(body.template, args),
            ttl_seconds,
        },
    )
}

/// What a get answers: the stored template and arguments verbatim, or
/// `SessionNotFound` where the store holds nothing under the id.
pub open spec fn spec_get_session_response(session_id: String, found: Option<SessionData>) -> Result<
    SessionDetailInfo,
    ApiError,
> {
    match found {
        Some(s) => Ok(
            SessionDetailInfo { session_id, template: s.template, args: s.args },
        ),
        None => Err(ApiError::SessionNotFound(session_id)),
    }
}

pub fn get_session_response(session_id: String, found: Option<SessionData>) -> (r: Result<
    SessionDetailInfo,
    ApiError,
>)
    ensures
        r == spec_get_session_response(session_id, found),
{
    match found {
        Some(s) => Ok(SessionDetailInfo { session_id, template: s.template, args: s.args }),
        None => Err(ApiError::SessionNotFound(session_id)),
    }
}

/// What an update stores: the found session with its arguments replaced
/// wholesale by the request's, refreshed for an hour, or `SessionNotFound`.
pub open spec fn spec_apply_update(
    session_id: String,
    found: Option<SessionData>,
    new_args: ArgMap,
) -> Result<(SessionData, u64), ApiError> {
    match found {
        Some(s) => Ok(
            (SessionData { template: s.template, args: new_args, owner: s.owner }, 3600u64),
        ),
        None => Err(ApiError::SessionNotFound(session_id)),
    }
}

pub fn apply_update(session_id: String, found: Option<SessionData>, new_args: ArgMap) -> (r:
    Result<(SessionData, u64), ApiError>)
    ensures
        r == spec_apply_update(session_id, found, new_args),
{
    match found {
        Some(mut s) => {
            let ghost template = s.template;
            let ghost owner = s.owner;
            s.replace_args(new_args);
            proof {
                assert(s == SessionData { template, args: s.args, owner });
            }
            Ok((s, 3600))
        },
        None => Err(ApiError::SessionNotFound(session_id)),
    }
}

/// The create-then-get round trip: a session stored as
/// [`prepare_create_session`] promises it (the request's template and
/// arguments verbatim) is answered back by a get byte for byte.
pub proof fn law_create_then_get(body: CreateBody, plan: CreatePlan, get_id: String)
    requires
        plan.session.template@ == body.template@,
        body.args matches Some(a) ==> plan.session.args == a,
    ensures
        spec_get_session_response(get_id, Some(plan.session)) matches Ok(d) && {
            &&& d.template@ == body.template@
            &&& (body.args matches Some(a) ==> d.args == a)
            &&& d.session_id == get_id
        },
{
}

/// Update replaces the arguments wholesale: a get after an update answers
/// exactly the update's argument map, never a merge with the previous one.
pub proof fn law_update_then_get(
    session_id: String,
    found: SessionData,
    new_args: ArgMap,
    get_id: String,
)
    ensures
        spec_apply_update(session_id, Some(found), new_args) matches Ok(pair) && pair.0.args
            == new_args && pair.1 == 3600,
        (spec_apply_update(session_id, Some(found), new_args) matches Ok(pair) && spec_get_session_response(
            get_id,
            Some(pair.0),
        ) matches Ok(d) ==> d.args == new_args),
{
}

} // verus!
