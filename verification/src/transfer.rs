//! The transfer state machine: fetch one URL, relay its body to the storage
//! sink, classify the outcome.
//!
//! One transfer runs `Start -> Fetching -> (done | Uploading -> done)`.
//! A fetch reply other than a 2xx status ends the transfer as
//! `SourceFetchFailed` and no upload is issued; once an upload is issued,
//! the upload reply alone decides between `Success` and `SinkUploadFailed`.
//! Every outcome is terminal: nothing is retried or requeued.

use vstd::prelude::*;
use crate::dest::dest_name_ok;
use crate::dest::get_filename_from_url;

verus! {

/// What one HTTP request came back with: a response status, or no response
/// at all (connection, proxy or protocol failure).
#[derive(Clone, Copy, Debug, PartialEq, Eq, Structural)]
pub enum HttpReply {
    Status(u16),
    NetworkError,
}

/// Terminal classification of one transfer.
#[derive(Clone, Copy, Debug, PartialEq, Eq, Structural)]
pub enum TransferOutcome {
    Success,
    SourceFetchFailed(HttpReply),
    SinkUploadFailed(HttpReply),
}

/// The per-transfer states. `Uploading` records the fetch status that
/// admitted the upload.
#[derive(Clone, Copy, Debug, PartialEq, Eq, Structural)]
pub enum TransferState {
    Start,
    Fetching,
    Uploading(u16),
    Done(TransferOutcome),
}

/// What the runtime reports to the machine: the admission token arrived,
/// the fetch replied, the upload replied.
#[derive(Clone, Copy, Debug, PartialEq, Eq, Structural)]
pub enum TransferEvent {
    Admitted,
    FetchReply(HttpReply),
    UploadReply(HttpReply),
}

/// What the runtime must do next on behalf of the machine.
#[derive(Clone, Copy, Debug, PartialEq, Eq, Structural)]
pub enum TransferAction {
    IssueFetch,
    IssueUpload,
    LogOutcome(TransferOutcome),
    Ignore,
}

/// A status in the 2xx range; 201 and 204 are in it like any other.
pub open spec fn spec_is_success(code: u16) -> bool {
    200 <= code && code < 300
}

/// A reply that counts as success: a response arrived and its status is 2xx.
pub open spec fn spec_reply_ok(r: HttpReply) -> bool {
    r matches HttpReply::Status(code) && spec_is_success(code)
}

pub fn is_success_status(code: u16) -> (r: bool)
    ensures
        r == spec_is_success(code),
{
    200 <= code && code < 300
}

pub fn is_success_reply(r: HttpReply) -> (ok: bool)
    ensures
        ok == spec_reply_ok(r),
{
    match r {
        HttpReply::Status(code) => is_success_status(code),
        HttpReply::NetworkError => false,
    }
}

/// The transition function of one transfer. An event that does not apply to
/// the current state leaves it unchanged and asks for nothing.
pub open spec fn spec_step(s: TransferState, e: TransferEvent) -> (TransferState, TransferAction) {
    match (s, e) {
        (TransferState::Start, TransferEvent::Admitted) => (
            TransferState::Fetching,
            TransferAction::IssueFetch,
        ),
        (TransferState::Fetching, TransferEvent::FetchReply(r)) => if spec_reply_ok(r) {
            (TransferState::Uploading(r->Status_0), TransferAction::IssueUpload)
        } else {
            (
                TransferState::Done(TransferOutcome::SourceFetchFailed(r)),
                TransferAction::LogOutcome(TransferOutcome::SourceFetchFailed(r)),
            )
        },
        (TransferState::Uploading(_), TransferEvent::UploadReply(r)) => if spec_reply_ok(r) {
            (
                TransferState::Done(TransferOutcome::Success),
                TransferAction::LogOutcome(TransferOutcome::Success),
            )
        } else {
            (
                TransferState::Done(TransferOutcome::SinkUploadFailed(r)),
                TransferAction::LogOutcome(TransferOutcome::SinkUploadFailed(r)),
            )
        },
        _ => (s, TransferAction::Ignore),
    }
}

/// Run one transition of the transfer machine.
pub fn transfer_step(s: TransferState, e: TransferEvent) -> (r: (TransferState, TransferAction))
    ensures
        r == spec_step(s, e),
{
    match (s, e) {
        (TransferState::Start, TransferEvent::Admitted) => (
            TransferState::Fetching,
            TransferAction::IssueFetch,
        ),
        (TransferState::Fetching, TransferEvent::FetchReply(r)) => match r {
            HttpReply::Status(code) => if is_success_status(code) {
                (TransferState::Uploading(code), TransferAction::IssueUpload)
            } else {
                (
                    TransferState::Done(TransferOutcome::SourceFetchFailed(r)),
                    TransferAction::LogOutcome(TransferOutcome::SourceFetchFailed(r)),
                )
            },
            HttpReply::NetworkError => (
                TransferState::Done(TransferOutcome::SourceFetchFailed(r)),
                TransferAction::LogOutcome(TransferOutcome::SourceFetchFailed(r)),
            ),
        },
        (TransferState::Uploading(_), TransferEvent::UploadReply(r)) => if is_success_reply(r) {
            (
                TransferState::Done(TransferOutcome::Success),
                TransferAction::LogOutcome(TransferOutcome::Success),
            )
        } else {
            (
                TransferState::Done(TransferOutcome::SinkUploadFailed(r)),
                TransferAction::LogOutcome(TransferOutcome::SinkUploadFailed(r)),
            )
        },
        _ => (s, TransferAction::Ignore),
    }
}

/// A state is well formed when an `Uploading` state records a 2xx fetch
/// status.
pub open spec fn state_wf(s: TransferState) -> bool {
    s matches TransferState::Uploading(code) ==> spec_is_success(code)
}

/// The event that reports a fetch reply with a 2xx status.
pub open spec fn spec_fetch_succeeded(e: TransferEvent) -> bool {
    e matches TransferEvent::FetchReply(r) && spec_reply_ok(r)
}

/// Law: the machine issues an upload only from `Fetching`, on a fetch reply
/// that carried a 2xx status. No other state or event leads to an upload.
pub proof fn lemma_upload_needs_fetch_success(s: TransferState, e: TransferEvent)
    ensures
        spec_step(s, e).1 == TransferAction::IssueUpload ==> (s == TransferState::Fetching
            && spec_fetch_succeeded(e)),
{
}

/// Law: every step preserves well-formedness, so any reachable `Uploading`
/// state records a 2xx fetch status.
pub proof fn lemma_step_preserves_wf(s: TransferState, e: TransferEvent)
    requires
        state_wf(s),
    ensures
        state_wf(spec_step(s, e).0),
{
}

/// Law: from an `Uploading` state, the transfer completes as `Success` if
/// and only if the upload reply carries a 2xx status; every other reply
/// completes it as `SinkUploadFailed` with that reply.
pub proof fn lemma_success_iff_upload_ok(code: u16, r: HttpReply)
    ensures
        spec_step(TransferState::Uploading(code), TransferEvent::UploadReply(r)).0
            == TransferState::Done(TransferOutcome::Success) <==> spec_reply_ok(r),
        !spec_reply_ok(r) ==> spec_step(
            TransferState::Uploading(code),
            TransferEvent::UploadReply(r),
        ).0 == TransferState::Done(TransferOutcome::SinkUploadFailed(r)),
{
}

/// Law: an outcome is terminal the instant it is produced: no event moves
/// the machine out of a `Done` state or asks for further work.
pub proof fn lemma_outcome_is_terminal(o: TransferOutcome, e: TransferEvent)
    ensures
        spec_step(TransferState::Done(o), e).0 == TransferState::Done(o),
        spec_step(TransferState::Done(o), e).1 == TransferAction::Ignore,
{
}

/// One whole transfer, with the two HTTP replies handed in by the runtime:
/// `fetch_reply` is what the GET came back with, and `upload_reply` is what
/// the PUT would come back with once issued. Returns the outcome and, when
/// an upload was issued, the destination name it was issued for.
pub fn run_transfer(url_str: &str, fetch_reply: HttpReply, upload_reply: HttpReply) -> (r: (
    TransferOutcome,
    Option<String>,
))
    ensures
        !spec_reply_ok(fetch_reply) ==> r.0 == TransferOutcome::SourceFetchFailed(fetch_reply)
            && r.1 is None,
        spec_reply_ok(fetch_reply) ==> (r.1 matches Some(name) && dest_name_ok(url_str@, name@))
            && r.0 == (if spec_reply_ok(upload_reply) {
            TransferOutcome::Success
        } else {
            TransferOutcome::SinkUploadFailed(upload_reply)
        }),
{
    if !is_success_reply(fetch_reply) {
        return (TransferOutcome::SourceFetchFailed(fetch_reply), None);
    }
    let name = get_filename_from_url(url_str);
    if is_success_reply(upload_reply) {
        (TransferOutcome::Success, Some(name))
    } else {
        (TransferOutcome::SinkUploadFailed(upload_reply), Some(name))
    }
}

} // verus!
