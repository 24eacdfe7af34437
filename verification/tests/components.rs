use animation_replace_roblox::batching::{chunk_asset_ids, create_batch_payloads, dedup_ids, BATCH_SIZE};
use animation_replace_roblox::builder::{BuildError, StudioParserBuilder};
use animation_replace_roblox::context_cache::ContextCache;
use animation_replace_roblox::errors::{escalates_rate_limit, should_retry_error, ApiError};
use animation_replace_roblox::gate::AdmissionGate;
use animation_replace_roblox::mapping::MappingTable;
use animation_replace_roblox::rate_limiter::RateLimiter;
use animation_replace_roblox::records::{
    dedup_by_request_id, filter_resolved, process_batch_responses, MetadataRecord,
};
use animation_replace_roblox::resolver::{
    first_seed_context, owner_of, place_fetch_retry_action, OwnerRef, OwnershipInfo,
    PlaceFetchAction,
};
use animation_replace_roblox::script_types::ScriptType;
use animation_replace_roblox::ResolveError;

fn record(id: u64, has_error: bool, location: Option<&str>) -> MetadataRecord {
    MetadataRecord {
        request_id: Some(id),
        has_error,
        location: location.map(|s| s.to_string()),
    }
}

#[test]
fn chunking_respects_batch_size_and_reconstructs_input() {
    let ids: Vec<u64> = (0..613).collect();
    let chunks = chunk_asset_ids(&ids);
    assert_eq!(chunks.len(), 3);
    assert_eq!(chunks[0].len(), 250);
    assert_eq!(chunks[1].len(), 250);
    assert_eq!(chunks[2].len(), 113);
    let mut rebuilt: Vec<u64> = Vec::new();
    for chunk in &chunks {
        assert!(chunk.len() <= BATCH_SIZE);
        assert!(!chunk.is_empty());
        rebuilt.extend_from_slice(chunk);
    }
    assert_eq!(rebuilt, ids);
}

#[test]
fn chunking_empty_input_gives_no_chunks() {
    let ids: Vec<u64> = Vec::new();
    let chunks = chunk_asset_ids(&ids);
    assert!(chunks.is_empty());
}

#[test]
fn chunking_exact_batch_size_gives_one_chunk() {
    let ids: Vec<u64> = (0..250).collect();
    let chunks = chunk_asset_ids(&ids);
    assert_eq!(chunks.len(), 1);
    assert_eq!(chunks[0], ids);
}

#[test]
fn payloads_carry_the_asset_id_twice() {
    let ids: Vec<u64> = vec![7, 11, 13];
    let payloads = create_batch_payloads(&ids);
    assert_eq!(payloads.len(), 3);
    for (i, p) in payloads.iter().enumerate() {
        assert_eq!(p.asset_id, ids[i]);
        assert_eq!(p.request_id, ids[i]);
    }
}

#[test]
fn dedup_keeps_first_occurrences_in_order() {
    let ids: Vec<u64> = vec![111111, 222222, 111111];
    assert_eq!(dedup_ids(&ids), vec![111111, 222222]);
    let ids2: Vec<u64> = vec![5, 5, 5, 4, 5, 4, 3];
    assert_eq!(dedup_ids(&ids2), vec![5, 4, 3]);
}

#[test]
fn rate_limiter_unset_returns_immediately() {
    let limiter = RateLimiter::new();
    assert_eq!(limiter.wait_if_limited(0), None);
    assert_eq!(limiter.wait_if_limited(123456), None);
}

#[test]
fn rate_limiter_deadline_is_monotone() {
    let mut limiter = RateLimiter::new();
    limiter.set_rate_limit(100, 30);
    assert_eq!(limiter.wait_if_limited(100), Some(130));
    // A shorter concurrent request never lowers the wake time.
    limiter.set_rate_limit(105, 10);
    assert_eq!(limiter.wait_if_limited(105), Some(130));
    // A longer one raises it.
    limiter.set_rate_limit(110, 60);
    assert_eq!(limiter.wait_if_limited(110), Some(170));
    // Once the deadline has passed, waiters go through.
    assert_eq!(limiter.wait_if_limited(170), None);
}

#[test]
fn rate_limiter_waiter_rechecks_after_extension() {
    let mut limiter = RateLimiter::new();
    limiter.set_rate_limit(0, 30);
    // A waiter wakes at 30, but another task extended the deadline
    // meanwhile; the re-check makes it wait again.
    limiter.set_rate_limit(20, 30);
    assert_eq!(limiter.wait_if_limited(30), Some(50));
    assert_eq!(limiter.wait_if_limited(50), None);
}

#[test]
fn partition_separates_errors_from_successes() {
    let responses = vec![
        record(1, false, Some("a")),
        record(2, true, None),
        record(3, false, None),
        MetadataRecord { request_id: None, has_error: true, location: None },
        record(5, true, Some("e")),
    ];
    let (successes, failed) = process_batch_responses(&responses);
    let success_ids: Vec<u64> = successes.iter().map(|m| m.request_id.unwrap()).collect();
    assert_eq!(success_ids, vec![1, 3]);
    // The erroring record without a correlation ID is dropped.
    assert_eq!(failed, vec![2, 5]);
}

#[test]
fn reconcile_keeps_only_now_clean_records() {
    let responses = vec![record(2, false, Some("x")), record(5, true, None)];
    let kept = filter_resolved(&responses);
    assert_eq!(kept.len(), 1);
    assert_eq!(kept[0].request_id, Some(2));
}

#[test]
fn record_dedup_drops_repeats_and_anonymous_records() {
    let records = vec![
        record(1, false, Some("a")),
        record(2, false, None),
        record(1, true, None),
        MetadataRecord { request_id: None, has_error: false, location: None },
    ];
    let unique = dedup_by_request_id(&records);
    assert_eq!(unique.len(), 2);
    assert_eq!(unique[0].request_id, Some(1));
    assert!(!unique[0].has_error);
    assert_eq!(unique[1].request_id, Some(2));
}

#[test]
fn owner_resolution_takes_exactly_one_branch() {
    let user_owned = OwnershipInfo { user_id: Some(9), group_id: None };
    assert_eq!(owner_of(&user_owned), Ok(OwnerRef::User(9)));
    let group_owned = OwnershipInfo { user_id: None, group_id: Some(17) };
    assert_eq!(owner_of(&group_owned), Ok(OwnerRef::Group(17)));
    // With both present the individual wins.
    let both = OwnershipInfo { user_id: Some(9), group_id: Some(17) };
    assert_eq!(owner_of(&both), Ok(OwnerRef::User(9)));
    let neither = OwnershipInfo { user_id: None, group_id: None };
    assert_eq!(owner_of(&neither), Err(ResolveError::NoOwner));
}

#[test]
fn place_retry_uses_base_plus_jitter() {
    let a = place_fetch_retry_action(&ApiError::TooManyRequests, 7);
    assert_eq!(a, PlaceFetchAction::RateLimitRetry { delay_secs: 4 + 7 % 10 });
    let b = place_fetch_retry_action(&ApiError::TooManyRequests, 23);
    assert_eq!(b, PlaceFetchAction::RateLimitRetry { delay_secs: 4 + 3 });
    let c = place_fetch_retry_action(&ApiError::BadRequest, 2);
    assert_eq!(
        c,
        PlaceFetchAction::Fail {
            failure: ResolveError::Fatal { error: ApiError::BadRequest, attempts: 2 }
        }
    );
}

#[test]
fn seed_context_is_first_success() {
    let outcomes = vec![None, Some(77), Some(88)];
    assert_eq!(first_seed_context(&outcomes), Ok(77));
    let none: Vec<Option<u64>> = vec![None, None];
    assert_eq!(first_seed_context(&none), Err(ResolveError::NoSeedContext));
    let empty: Vec<Option<u64>> = Vec::new();
    assert_eq!(first_seed_context(&empty), Err(ResolveError::NoSeedContext));
}

#[test]
fn error_classification_matches_taxonomy() {
    assert!(should_retry_error(&ApiError::MalformedResponse));
    assert!(should_retry_error(&ApiError::Timeout));
    assert!(!should_retry_error(&ApiError::TooManyRequests));
    assert!(!should_retry_error(&ApiError::BadRequest));
    assert!(!should_retry_error(&ApiError::InternalServerError));
    assert!(!should_retry_error(&ApiError::Other));
    assert!(escalates_rate_limit(&ApiError::TooManyRequests));
    assert!(escalates_rate_limit(&ApiError::InternalServerError));
    assert!(!escalates_rate_limit(&ApiError::MalformedResponse));
    assert!(!escalates_rate_limit(&ApiError::Timeout));
    assert!(!escalates_rate_limit(&ApiError::BadRequest));
    assert!(!escalates_rate_limit(&ApiError::Other));
}

#[test]
fn admission_gate_never_exceeds_its_bound() {
    let mut gate = AdmissionGate::new(3);
    let mut holders: u64 = 0;
    let mut peak: u64 = 0;
    // Ten tasks ask for a slot; only three may hold one at a time.
    for _ in 0..10 {
        if gate.try_acquire() {
            holders += 1;
            if holders > peak {
                peak = holders;
            }
        }
    }
    assert_eq!(peak, 3);
    gate.release();
    holders -= 1;
    assert!(gate.try_acquire());
    holders += 1;
    assert_eq!(holders, 3);
}

#[test]
fn admission_gate_of_one_serializes() {
    let mut gate = AdmissionGate::new(1);
    assert!(gate.try_acquire());
    assert!(!gate.try_acquire());
    gate.release();
    assert!(gate.try_acquire());
}

#[test]
fn context_cache_lookup_and_insert() {
    let mut cache = ContextCache::new();
    assert_eq!(cache.find_cached_context(42), None);
    cache.add_asset(1000, 42);
    cache.add_asset(1000, 43);
    cache.add_asset(2000, 99);
    assert_eq!(cache.find_cached_context(42), Some(1000));
    assert_eq!(cache.find_cached_context(43), Some(1000));
    assert_eq!(cache.find_cached_context(99), Some(2000));
    assert_eq!(cache.find_cached_context(7), None);
    let entries = cache.into_entries();
    assert_eq!(entries.len(), 2);
    assert_eq!(entries[0], (1000, vec![42, 43]));
    assert_eq!(entries[1], (2000, vec![99]));
}

#[test]
fn mapping_table_last_write_wins() {
    let mut table = MappingTable::new();
    table.insert(1, "a".to_string());
    table.insert(2, "b".to_string());
    table.insert(1, "c".to_string());
    assert_eq!(table.len(), 2);
    assert_eq!(table.get(1).unwrap().as_str(), "c");
    assert_eq!(table.get(2).unwrap().as_str(), "b");
    assert!(table.get(3).is_none());
}

#[test]
fn script_type_round_trips_class_names() {
    assert_eq!(ScriptType::from_class_name("Script"), ScriptType::Script);
    assert_eq!(ScriptType::from_class_name("LocalScript"), ScriptType::LocalScript);
    assert_eq!(ScriptType::from_class_name("ModuleScript"), ScriptType::ModuleScript);
    assert_eq!(
        ScriptType::from_class_name("Sound"),
        ScriptType::Unknown("Sound".to_string())
    );
    assert_eq!(ScriptType::Script.as_str(), "Script");
    assert_eq!(ScriptType::LocalScript.as_str(), "LocalScript");
    assert_eq!(ScriptType::ModuleScript.as_str(), "ModuleScript");
    assert_eq!(ScriptType::Unknown("Sound".to_string()).as_str(), "Sound");
}

#[test]
fn builder_requires_a_file_path() {
    let missing = StudioParserBuilder::new().roblosecurity("cookie".to_string()).build();
    assert!(matches!(missing, Err(BuildError::MissingFilePath)));
    let config = StudioParserBuilder::new()
        .file_path("place.rbxl".to_string())
        .roblosecurity("cookie".to_string())
        .build()
        .unwrap();
    assert_eq!(config.file_path, "place.rbxl");
    assert_eq!(config.roblosecurity.as_deref(), Some("cookie"));
    let bare = StudioParserBuilder::new().file_path("p.rbxl".to_string()).build().unwrap();
    assert!(bare.roblosecurity.is_none());
}
