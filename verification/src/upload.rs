use vstd::prelude::*;
use crate::errors::ApiError;
use crate::errors::spec_escalates_rate_limit;
use crate::errors::escalates_rate_limit;
use crate::records::MetadataRecord;

verus! {

/// How often one asset's upload is attempted before its task fails.
pub const MAX_UPLOAD_RETRIES: u64 = 5;

/// How many upload tasks may hold an admission slot at once when the
/// caller names no bound.
pub const DEFAULT_CONCURRENT_TASKS: u64 = 50;

/// How often one asset's payload download is attempted before its task
/// fails.
pub const MAX_DOWNLOAD_RETRIES: u64 = 3;

/// The milliseconds a task pauses between upload attempts.
pub const UPLOAD_RETRY_PAUSE_MILLIS: u64 = 1000;

/// One planned upload: a record that survived the usable-location filter.
#[derive(Clone, Debug)]
pub struct UploadJob {
    /// The record's position in the resolved metadata list, for progress
    /// reporting.
    pub index: usize,
    /// The correlation ID the upload's outcome is keyed under, when known.
    pub request_id: Option<u64>,
    /// Where the payload is downloaded from.
    pub location: String,
}

/// The jobs a metadata list gives rise to: one per record with a usable
/// download location, keeping the record's position, in order.
pub open spec fn upload_plan_of(s: Seq<MetadataRecord>) -> Seq<UploadJob>
    decreases s.len(),
{
    if s.len() == 0 {
        Seq::empty()
    } else {
        let rest = upload_plan_of(s.drop_last());
        let m = s.last();
        if m.location is Some {
            rest.push(
                UploadJob {
                    index: (s.len() - 1) as usize,
                    request_id: m.request_id,
                    location: m.location->0,
                },
            )
        } else {
            rest
        }
    }
}

/// Plans the upload tasks: filters out every record lacking a usable
/// download location and pairs the rest with their positions. One task is
/// spawned per planned job.
pub fn plan_upload_tasks(records: &Vec<MetadataRecord>) -> (jobs: Vec<UploadJob>)
    ensures
        jobs@ == upload_plan_of(records@),
{
    let mut jobs: Vec<UploadJob> = Vec::new();
    let mut i: usize = 0;
    while i < records.len()
        invariant
            i <= records@.len(),
            jobs@ == upload_plan_of(records@.take(i as int)),
        decreases records@.len() - i,
    {
        proof {
            assert(records@.take(i + 1 as int).drop_last() =~= records@.take(i as int));
            assert(records@.take(i + 1 as int).last() == records@[i as int]);
        }
        let record = &records[i];
        if let Some(location) = &record.location {
            jobs.push(
                UploadJob {
                    index: i,
                    request_id: record.request_id,
                    location: location.clone(),
                },
            );
        }
        i = i + 1;
    }
    proof {
        assert(records@.take(records@.len() as int) =~= records@);
    }
    jobs
}

/// What one upload attempt's outcome leads to.
#[derive(Debug)]
pub enum UploadAttemptAction {
    /// The upload succeeded: the task finishes with the new asset ID.
    Done { new_id: String },
    /// Try again after the fixed pause; when the error was throttling or a
    /// server-side failure, first raise the shared rate limit by the given
    /// delay and wait on it.
    Retry { escalate_secs: Option<u64>, pause_millis: u64 },
    /// The attempts are exhausted: the task fails with the last error.
    /// When that error was throttling or server-side, the shared rate
    /// limit is still raised, so sibling tasks back off.
    Fail { error: ApiError, escalate_secs: Option<u64> },
}

/// Decides how an upload attempt's outcome goes on. Success finishes the
/// task. A failure escalates the shared rate limit by thirty seconds per
/// attempt made when it was throttling or server-side; below the attempt
/// ceiling the task retries after the fixed pause, at the ceiling it fails
/// with this last error.
pub fn upload_attempt_action(outcome: Result<String, ApiError>, attempt: u64) -> (r:
    UploadAttemptAction)
    requires
        1 <= attempt <= MAX_UPLOAD_RETRIES,
    ensures
        outcome is Ok ==> r == (UploadAttemptAction::Done { new_id: outcome->Ok_0 }),
        outcome is Err && attempt < MAX_UPLOAD_RETRIES ==> r == (UploadAttemptAction::Retry {
            escalate_secs: if spec_escalates_rate_limit(outcome->Err_0) {
                Some((attempt * 30) as u64)
            } else {
                None
            },
            pause_millis: UPLOAD_RETRY_PAUSE_MILLIS,
        }),
        outcome is Err && attempt == MAX_UPLOAD_RETRIES ==> r == (UploadAttemptAction::Fail {
            error: outcome->Err_0,
            escalate_secs: if spec_escalates_rate_limit(outcome->Err_0) {
                Some((attempt * 30) as u64)
            } else {
                None
            },
        }),
{
    match outcome {
        Ok(new_id) => UploadAttemptAction::Done { new_id },
        Err(error) => {
            let escalate_secs = if escalates_rate_limit(&error) {
                Some(attempt * 30)
            } else {
                None
            };
            if attempt < MAX_UPLOAD_RETRIES {
                UploadAttemptAction::Retry {
                    escalate_secs,
                    pause_millis: UPLOAD_RETRY_PAUSE_MILLIS,
                }
            } else {
                UploadAttemptAction::Fail { error, escalate_secs }
            }
        },
    }
}

/// How one payload-download attempt ended, as the driver observed it.
#[derive(Clone, Copy, Debug, PartialEq, Eq, Structural)]
pub enum DownloadEvent {
    /// The payload arrived: the task proceeds to the upload stage.
    Succeeded,
    /// The transport failed before the attempt's own timeout.
    TransportError,
    /// The attempt ran into its timeout.
    TimedOut,
}

/// What one download attempt's outcome leads to.
#[derive(Clone, Copy, Debug, PartialEq, Eq, Structural)]
pub enum DownloadAction {
    /// The payload is in hand: proceed to the upload stage.
    Proceed,
    /// Try the download again at once.
    Retry,
    /// The attempts are exhausted: the task fails with this error.
    Fail { error: ApiError },
}

/// Decides how a download attempt's outcome goes on. Below the attempt
/// ceiling any failure is retried at once; at the ceiling a transport
/// failure surfaces as an unclassified error and a timeout as a
/// server-side one.
pub fn download_attempt_action(event: &DownloadEvent, attempt: u64) -> (r: DownloadAction)
    requires
        1 <= attempt <= MAX_DOWNLOAD_RETRIES,
    ensures
        *event is Succeeded ==> r == DownloadAction::Proceed,
        !(*event is Succeeded) && attempt < MAX_DOWNLOAD_RETRIES ==> r == DownloadAction::Retry,
        *event is TransportError && attempt == MAX_DOWNLOAD_RETRIES ==> r == (
        DownloadAction::Fail { error: ApiError::Other }),
        *event is TimedOut && attempt == MAX_DOWNLOAD_RETRIES ==> r == (DownloadAction::Fail {
            error: ApiError::InternalServerError,
        }),
{
    match event {
        DownloadEvent::Succeeded => DownloadAction::Proceed,
        DownloadEvent::TransportError => {
            if attempt < MAX_DOWNLOAD_RETRIES {
                DownloadAction::Retry
            } else {
                DownloadAction::Fail { error: ApiError::Other }
            }
        },
        DownloadEvent::TimedOut => {
            if attempt < MAX_DOWNLOAD_RETRIES {
                DownloadAction::Retry
            } else {
                DownloadAction::Fail { error: ApiError::InternalServerError }
            }
        },
    }
}

} // verus!
