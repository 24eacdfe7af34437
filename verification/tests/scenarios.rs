use animation_replace_roblox::batching::dedup_ids;
use animation_replace_roblox::context_cache::ContextCache;
use animation_replace_roblox::errors::ApiError;
use animation_replace_roblox::fetch::{handle_fetch_error, FetchErrorAction, MAX_FETCH_RETRIES};
use animation_replace_roblox::mapping::{collect_upload_results, UploadOutcome};
use animation_replace_roblox::rate_limiter::RateLimiter;
use animation_replace_roblox::records::{filter_resolved, process_batch_responses, MetadataRecord};
use animation_replace_roblox::resolver::owner_of;
use animation_replace_roblox::resolver::OwnershipInfo;
use animation_replace_roblox::upload::{
    download_attempt_action, plan_upload_tasks, upload_attempt_action, DownloadAction,
    DownloadEvent, UploadAttemptAction, MAX_DOWNLOAD_RETRIES,
};
use animation_replace_roblox::ResolveError;

fn record(id: u64, has_error: bool, location: Option<&str>) -> MetadataRecord {
    MetadataRecord {
        request_id: Some(id),
        has_error,
        location: location.map(|s| s.to_string()),
    }
}

/// A duplicate input ID is dropped upstream; the asset that failed the
/// first batch query is retried under its resolved context and both assets
/// end up as keys in the final mapping.
#[test]
fn duplicate_input_and_failed_asset_both_reach_the_mapping() {
    // Input with a trailing duplicate, deduplicated upstream.
    let input: Vec<u64> = vec![111111, 222222, 111111];
    let ids = dedup_ids(&input);
    assert_eq!(ids, vec![111111, 222222]);

    // The metadata batch answers: one clean record, one throttled.
    let batch = vec![record(111111, false, Some("L1")), record(222222, true, None)];
    let (successes, failed) = process_batch_responses(&batch);
    assert_eq!(successes.len(), 1);
    assert_eq!(successes[0].request_id, Some(111111));
    assert_eq!(failed, vec![222222]);

    // The failed asset's ownership resolves to a collective; its context
    // lands in the cache, bucketing it for the reconcile query.
    let mut cache = ContextCache::new();
    assert_eq!(cache.find_cached_context(222222), None);
    let owner = owner_of(&OwnershipInfo { user_id: None, group_id: Some(5000) });
    assert!(owner.is_ok());
    cache.add_asset(7777, 222222);
    assert_eq!(cache.find_cached_context(222222), Some(7777));

    // The reconcile query under the discovered context now succeeds.
    let reconcile_answer = vec![record(222222, false, Some("L2"))];
    let reconciled = filter_resolved(&reconcile_answer);
    let mut resolved = successes;
    resolved.extend(reconciled);
    assert_eq!(resolved.len(), 2);

    // Both records have usable locations, so both are planned and uploaded.
    let jobs = plan_upload_tasks(&resolved);
    assert_eq!(jobs.len(), 2);
    assert_eq!(jobs[0].location, "L1");
    assert_eq!(jobs[1].location, "L2");

    let outcomes: Vec<UploadOutcome> = vec![
        Ok((jobs[0].request_id, "900001".to_string())),
        Ok((jobs[1].request_id, "900002".to_string())),
    ];
    let (mapping, upload_errors) = collect_upload_results(&outcomes);
    assert!(upload_errors.is_empty());
    assert_eq!(mapping.len(), 2);
    assert_eq!(mapping.get(111111).unwrap().as_str(), "900001");
    assert_eq!(mapping.get(222222).unwrap().as_str(), "900002");
}

/// An upload that fails twice with a server-side error escalates the
/// shared deadline exactly twice, by thirty then sixty seconds, and the
/// third attempt's success ends the task with the new ID.
#[test]
fn two_server_errors_escalate_then_third_attempt_succeeds() {
    let mut limiter = RateLimiter::new();
    let mut escalations: Vec<u64> = Vec::new();
    let mut now: u64 = 1000;
    let mut result: Option<String> = None;

    for attempt in 1..=3u64 {
        let outcome: Result<String, ApiError> = if attempt <= 2 {
            Err(ApiError::InternalServerError)
        } else {
            Ok("900111".to_string())
        };
        match upload_attempt_action(outcome, attempt) {
            UploadAttemptAction::Done { new_id } => {
                result = Some(new_id);
                break;
            }
            UploadAttemptAction::Retry { escalate_secs, pause_millis } => {
                assert_eq!(pause_millis, 1000);
                if let Some(delay) = escalate_secs {
                    escalations.push(delay);
                    limiter.set_rate_limit(now, delay);
                    // The task waits the shared deadline out before retrying.
                    now = limiter.wait_if_limited(now).unwrap();
                }
            }
            UploadAttemptAction::Fail { .. } => unreachable!("the third attempt succeeds"),
        }
    }

    assert_eq!(escalations, vec![30, 60]);
    assert_eq!(result.as_deref(), Some("900111"));
    assert_eq!(now, 1000 + 30 + 60);
    assert_eq!(limiter.wait_if_limited(now), None);
}

/// An asset whose ownership names no owner fails resolution for that asset
/// only: it is absent from the final success set while the other assets
/// proceed untouched.
#[test]
fn ownerless_asset_is_dropped_without_hurting_siblings() {
    let batch = vec![record(123456, false, Some("L1")), record(999999, true, None)];
    let (successes, failed) = process_batch_responses(&batch);
    assert_eq!(failed, vec![999999]);

    // The ownership descriptor names neither owner kind.
    let owner = owner_of(&OwnershipInfo { user_id: None, group_id: None });
    assert_eq!(owner, Err(ResolveError::NoOwner));

    // No context is discovered, so the asset joins no reconcile bucket and
    // the success set stays as it was.
    let cache = ContextCache::new();
    assert_eq!(cache.find_cached_context(999999), None);
    let resolved = successes;
    assert_eq!(resolved.len(), 1);
    assert_eq!(resolved[0].request_id, Some(123456));

    // The sibling still uploads and is mapped.
    let jobs = plan_upload_tasks(&resolved);
    assert_eq!(jobs.len(), 1);
    let outcomes: Vec<UploadOutcome> = vec![Ok((jobs[0].request_id, "42".to_string()))];
    let (mapping, upload_errors) = collect_upload_results(&outcomes);
    assert!(upload_errors.is_empty());
    assert_eq!(mapping.len(), 1);
    assert_eq!(mapping.get(123456).unwrap().as_str(), "42");
    assert!(mapping.get(999999).is_none());
}

#[test]
fn fetch_errors_follow_the_retry_policy() {
    // Throttling escalates by thirty seconds per attempt made.
    let mut attempts: u64 = 0;
    let a = handle_fetch_error(&ApiError::TooManyRequests, &mut attempts);
    assert_eq!(attempts, 1);
    assert_eq!(a, FetchErrorAction::RateLimitRetry { delay_secs: 30 });
    let b = handle_fetch_error(&ApiError::TooManyRequests, &mut attempts);
    assert_eq!(b, FetchErrorAction::RateLimitRetry { delay_secs: 60 });

    // Malformed responses and timeouts earn the fixed short pause.
    let c = handle_fetch_error(&ApiError::MalformedResponse, &mut attempts);
    assert_eq!(c, FetchErrorAction::DelayedRetry { delay_secs: 2 });
    let d = handle_fetch_error(&ApiError::Timeout, &mut attempts);
    assert_eq!(d, FetchErrorAction::DelayedRetry { delay_secs: 2 });

    // Anything else is fatal at once.
    let e = handle_fetch_error(&ApiError::BadRequest, &mut attempts);
    assert_eq!(e, FetchErrorAction::FailFatal);
    let f = handle_fetch_error(&ApiError::InternalServerError, &mut attempts);
    assert_eq!(f, FetchErrorAction::FailFatal);
    let g = handle_fetch_error(&ApiError::Other, &mut attempts);
    assert_eq!(g, FetchErrorAction::FailFatal);

    // Past the ceiling every error fails the chunk.
    let mut worn: u64 = MAX_FETCH_RETRIES;
    let h = handle_fetch_error(&ApiError::TooManyRequests, &mut worn);
    assert_eq!(h, FetchErrorAction::FailCeiling);
}

#[test]
fn upload_attempts_exhaust_into_failure() {
    // A non-escalating error retries without touching the shared limiter.
    let r1 = upload_attempt_action(Err(ApiError::BadRequest), 1);
    match r1 {
        UploadAttemptAction::Retry { escalate_secs, pause_millis } => {
            assert_eq!(escalate_secs, None);
            assert_eq!(pause_millis, 1000);
        }
        _ => panic!("expected a retry"),
    }
    // The final attempt's error is the task's error; a throttling error
    // still escalates on the way out.
    let r2 = upload_attempt_action(Err(ApiError::TooManyRequests), 5);
    match r2 {
        UploadAttemptAction::Fail { error, escalate_secs } => {
            assert_eq!(error, ApiError::TooManyRequests);
            assert_eq!(escalate_secs, Some(150));
        }
        _ => panic!("expected a failure"),
    }
}

#[test]
fn download_attempts_follow_the_retry_policy() {
    assert_eq!(download_attempt_action(&DownloadEvent::Succeeded, 1), DownloadAction::Proceed);
    assert_eq!(download_attempt_action(&DownloadEvent::TransportError, 1), DownloadAction::Retry);
    assert_eq!(download_attempt_action(&DownloadEvent::TimedOut, 2), DownloadAction::Retry);
    assert_eq!(
        download_attempt_action(&DownloadEvent::TransportError, MAX_DOWNLOAD_RETRIES),
        DownloadAction::Fail { error: ApiError::Other }
    );
    assert_eq!(
        download_attempt_action(&DownloadEvent::TimedOut, MAX_DOWNLOAD_RETRIES),
        DownloadAction::Fail { error: ApiError::InternalServerError }
    );
}

#[test]
fn collect_results_keeps_partial_mapping_and_errors() {
    let outcomes: Vec<UploadOutcome> = vec![
        Ok((Some(1), "a".to_string())),
        Err(ApiError::BadRequest),
        Ok((None, "orphan".to_string())),
        Err(ApiError::TooManyRequests),
        Ok((Some(2), "b".to_string())),
    ];
    let (mapping, upload_errors) = collect_upload_results(&outcomes);
    assert_eq!(mapping.len(), 2);
    assert_eq!(mapping.get(1).unwrap().as_str(), "a");
    assert_eq!(mapping.get(2).unwrap().as_str(), "b");
    assert_eq!(upload_errors, vec![ApiError::BadRequest, ApiError::TooManyRequests]);
}
