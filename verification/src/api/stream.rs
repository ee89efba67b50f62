//! Stream endpoints: the public and the owned stream request decisions.
//!
//! The owned stream, like every owned endpoint, is served only to the
//! authenticated subject named by the path; any other subject is
//! `Forbidden`.  On admission the decision fixes everything the engine
//! needs: the redirect target, the topic (equal to the store key), the
//! frame rendered at join time, and the resolved configuration.

use vstd::prelude::*;

use crate::browser_engine::WellKnownBrowserEngine;
use crate::errors::ApiError;
use crate::session_data::SessionData;
use crate::stream::{
    plan_stream, spec_should_double, spec_should_redirect, StreamPlan, StreamSenderConfigParams,
    StreamSenderRequest,
};
use crate::whoami::WhoAmI;

verus! {

/// What an admitted stream plan owes: the redirect target for humans, else
/// an open stream on the given topic with the join-time frame and the
/// resolved configuration.
pub open spec fn spec_stream_outcome(
    params: StreamSenderConfigParams,
    whoami: WhoAmI,
    engine: WellKnownBrowserEngine,
    redirect_path: Seq<char>,
    topic: Seq<char>,
    content: Seq<char>,
    log_id: Seq<char>,
    r: StreamPlan,
) -> bool {
    if spec_should_redirect(params, whoami) {
        r matches StreamPlan::Redirect(p) && p@ == redirect_path
    } else {
        (r matches StreamPlan::Stream(s, t) && {
            &&& t@ == topic
            &&& s.config.session_log_id@ == log_id
            &&& s.config.initial_frame.content@ == content
            &&& s.config.should_double == spec_should_double(params, engine)
            &&& s.config.keep_alive_ms == match params.keep_alive {
                Some(v) => v,
                None => 30000u64,
            }
            &&& s.config.delayed_start_ms == match params.delayed_start {
                Some(v) => v,
                None => 0u64,
            }
        })
    }
}

/// Decides a public stream request: an absent session is `SessionNotFound`;
/// otherwise the session id names both the topic and the detail page, and
/// the initial frame is rendered from the stored session at join time.
pub fn plan_public_stream(
    session_id: String,
    found: Option<SessionData>,
    params: StreamSenderConfigParams,
    whoami: WhoAmI,
    engine: WellKnownBrowserEngine,
) -> (r: Result<StreamPlan, ApiError>)
    ensures
        found is None ==> (r matches Err(e) && e matches ApiError::SessionNotFound(s) && s@
            == session_id@),
        found matches Some(sess) ==> (r matches Ok(p) && spec_stream_outcome(
            params,
            whoami,
            engine,
            "/session/"@ + session_id@,
            session_id@,
            sess.spec_frame_content(),
            session_id@,
            p,
        )),
{
    let session = match found {
        Some(s) => s,
        None => {
            return Err(ApiError::SessionNotFound(session_id));
        },
    };
    let initial_frame = session.current_frame();
    let mut redirect_path = String::from_str("/session/");
    redirect_path.append(session_id.as_str());
    let request = StreamSenderRequest {
        session_log_id: session_id.clone(),
        redirect_path,
        initial_frame,
        pubsub_channel: session_id,
    };
    Ok(plan_stream(params, whoami, engine, request))
}

/// Decides an owned stream request: authorization first (the subject must
/// be the path's user), then an absent session is `SessionNotFound`;
/// otherwise the topic is the owned-session key itself, never a public
/// session of the same name.
pub fn plan_user_stream(
    subject: &str,
    user_id: &str,
    session_id: String,
    found: Option<SessionData>,
    params: StreamSenderConfigParams,
    whoami: WhoAmI,
    engine: WellKnownBrowserEngine,
) -> (r: Result<StreamPlan, ApiError>)
    ensures
        subject@ != user_id@ ==> (r matches Err(e) && e is Forbidden),
        subject@ == user_id@ && found is None ==> (r matches Err(e) && e matches ApiError::SessionNotFound(
            s,
        ) && s@ == session_id@),
        subject@ == user_id@ ==> (found matches Some(sess) ==> r matches Ok(p)
            && spec_stream_outcome(
            params,
            whoami,
            engine,
            "/session/"@ + session_id@,
            crate::keys::spec_user_session_key(user_id@, session_id@),
            sess.spec_frame_content(),
            user_id@ + ":"@ + session_id@,
            p,
        )),
{
    crate::auth::authorize_user(subject, user_id)?;
    let session = match found {
        Some(s) => s,
        None => {
            return Err(ApiError::SessionNotFound(session_id));
        },
    };
    let initial_frame = session.current_frame();
    let mut redirect_path = String::from_str("/session/");
    redirect_path.append(session_id.as_str());
    let mut log_id = user_id.to_owned();
    log_id.append(":");
    log_id.append(session_id.as_str());
    proof {
        assert(log_id@ =~= user_id@ + ":"@ + session_id@);
    }
    let topic = crate::keys::user_session_key(user_id, session_id.as_str());
    let request = StreamSenderRequest {
        session_log_id: log_id,
        redirect_path,
        initial_frame,
        pubsub_channel: topic,
    };
    Ok(plan_stream(params, whoami, engine, request))
}

} // verus!
