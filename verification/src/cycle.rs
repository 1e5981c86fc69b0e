use vstd::prelude::*;

use crate::credentials::{is_token_expired, spec_token_expired, TokenInfo};
use crate::errors::{CredentialError, FetchError, SnapshotError, TokenStatus};
use crate::snapshot::{combine, CombinedUsageData, CopilotUsageData, UsageData};

verus! {

/// The shared state store: the last successfully fetched primary snapshot.
/// Created empty at start, advanced only by a successful primary fetch,
/// never cleared.
#[derive(Debug)]
pub struct AppState {
    pub latest_usage: Option<UsageData>,
}

impl AppState {
    /// The state before any cycle has run.
    pub fn new() -> (s: Self)
        ensures
            s.latest_usage is None,
    {
        AppState { latest_usage: None }
    }

    /// Hands out the last known good snapshot, and reports that none is
    /// available while no cycle has succeeded yet.
    pub fn get_usage(&self) -> (r: Result<UsageData, SnapshotError>)
        ensures
            self.latest_usage matches Some(d) ==> r matches Ok(u) && u == d,
            self.latest_usage is None ==> r == Err::<UsageData, SnapshotError>(
                SnapshotError::NotYetAvailable,
            ),
    {
        match &self.latest_usage {
            Some(d) => Ok(d.clone()),
            None => Err(SnapshotError::NotYetAvailable),
        }
    }
}

/// What the credential check decided: abort the cycle with a status to
/// emit, or proceed to fetch with the token.
#[derive(Debug)]
pub enum CycleGate {
    Abort(TokenStatus),
    Proceed(TokenInfo),
}

/// First step of a fetch cycle. An unreadable or malformed credential store
/// aborts with the `error` status; a token expiring within the safety margin
/// aborts with `expired`, and no fetch is attempted; otherwise the cycle
/// proceeds with the token.
pub fn check_credentials(cred: Result<TokenInfo, CredentialError>, now_ms: u64) -> (gate:
    CycleGate)
    ensures
        cred is Err ==> gate == CycleGate::Abort(TokenStatus::Error),
        cred matches Ok(t) ==> {
            &&& spec_token_expired(t.expires_at, now_ms) ==> gate == CycleGate::Abort(
                TokenStatus::Expired,
            )
            &&& !spec_token_expired(t.expires_at, now_ms) ==> gate == CycleGate::Proceed(t)
        },
{
    match cred {
        Err(_) => CycleGate::Abort(TokenStatus::Error),
        Ok(t) => {
            if is_token_expired(t.expires_at, now_ms) {
                CycleGate::Abort(TokenStatus::Expired)
            } else {
                CycleGate::Proceed(t)
            }
        },
    }
}

/// What came back from the primary fetch, before it is judged.
#[derive(Debug)]
pub enum UsageResponse {
    /// The request never completed: connection, timeout or protocol failure.
    TransportFailure,
    /// The upstream answered with `status`; `parsed` holds the decoded body
    /// when decoding succeeded.
    Upstream { status: u16, parsed: Option<UsageData> },
}

/// HTTP statuses that count as success.
pub open spec fn status_is_success(status: u16) -> bool {
    200 <= status < 300
}

/// Judges the primary fetch: a transport failure is a failed request, a
/// non-success status or an undecodable body is an invalid response, and
/// only a decoded body under a success status yields a snapshot.
pub fn evaluate_usage_response(response: UsageResponse) -> (r: Result<UsageData, FetchError>)
    ensures
        response is TransportFailure ==> r == Err::<UsageData, FetchError>(
            FetchError::RequestFailed,
        ),
        response matches UsageResponse::Upstream { status, parsed } ==> {
            &&& status_is_success(status) && parsed is Some ==> (r matches Ok(u) && parsed == Some(
                u,
            ))
            &&& !(status_is_success(status) && parsed is Some) ==> r == Err::<
                UsageData,
                FetchError,
            >(FetchError::ResponseInvalid)
        },
{
    match response {
        UsageResponse::TransportFailure => Err(FetchError::RequestFailed),
        UsageResponse::Upstream { status, parsed } => {
            if 200 <= status && status < 300 {
                match parsed {
                    Some(d) => Ok(d),
                    None => Err(FetchError::ResponseInvalid),
                }
            } else {
                Err(FetchError::ResponseInvalid)
            }
        },
    }
}

/// What one cycle emits. Every failure inside a cycle ends here as a status;
/// nothing propagates out to crash the loop.
#[derive(Debug)]
pub struct CycleEvents {
    /// Payload of the `token-status` event.
    pub token_status: TokenStatus,
    /// Payload of the `usage-update` event, when one is due.
    pub usage_update: Option<CombinedUsageData>,
    /// Payload of the degraded-mode `copilot-only-update` event, due when
    /// the primary fetch failed but the secondary one delivered.
    pub copilot_only: Option<CopilotUsageData>,
}

impl CycleEvents {
    /// Events of a cycle that aborted before fetching: a status, nothing
    /// else.
    pub fn status_only(status: TokenStatus) -> (ev: CycleEvents)
        ensures
            ev.token_status == status,
            ev.usage_update is None,
            ev.copilot_only is None,
    {
        CycleEvents { token_status: status, usage_update: None, copilot_only: None }
    }
}

/// Final step of a fetch cycle. A successful primary fetch replaces the
/// stored snapshot and publishes the combined result with the `ok` status; a
/// failed one leaves the store untouched — last known good — reports
/// `fetch_error`, and passes a secondary result on alone so the presentation
/// layer is not starved.
pub fn complete_cycle(
    state: &mut AppState,
    claude_result: Result<UsageData, FetchError>,
    copilot_result: Option<CopilotUsageData>,
) -> (ev: CycleEvents)
    ensures
        claude_result matches Ok(d) ==> {
            &&& final(state).latest_usage == Some(d)
            &&& ev.token_status == TokenStatus::Valid
            &&& ev.usage_update matches Some(c) && c.claude == d && c.copilot == copilot_result
            &&& ev.copilot_only is None
        },
        claude_result is Err ==> {
            &&& *final(state) == *old(state)
            &&& ev.token_status == TokenStatus::FetchFailed
            &&& ev.usage_update is None
            &&& ev.copilot_only == copilot_result
        },
{
    match claude_result {
        Ok(data) => {
            let combined = combine(data.clone(), copilot_result);
            state.latest_usage = Some(data);
            CycleEvents {
                token_status: TokenStatus::Valid,
                usage_update: Some(combined),
                copilot_only: None,
            }
        },
        Err(_) => CycleEvents {
            token_status: TokenStatus::FetchFailed,
            usage_update: None,
            copilot_only: copilot_result,
        },
    }
}

} // verus!
