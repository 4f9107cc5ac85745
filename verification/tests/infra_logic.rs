use lingbase::backend::backend::MemoryStats;
use lingbase::infra::config::{default_max_tokens, default_top_k, default_workers, BackendConfig};
use lingbase::infra::health::{health_response, readiness_response};
use lingbase::llama::model::lib_dir_for_arch;
use lingbase::llama::ptr::{SendPtr, SyncPtr};
use lingbase::llama::tokenize::{
    check_c_text, detokenize_result, detokenize_step, filter_special_tokens, tokenize_result, DetokenizeStep,
};
use lingbase::error::InferenceError;
use lingbase::rknn3::prelude::{
    fill_special_ids,
    CallbackError, InferParams, KvCacheDtype, KvCachePolicy, KvCachePolicyParam,
    KvCacheStoreMethod, LlmTaskType, MemAllocFlags,
};
use lingbase::text::u64_to_text;

#[test]
fn config_defaults() {
    assert_eq!(default_workers(), 1);
    assert_eq!(default_max_tokens(), 256);
    assert_eq!(default_top_k(), 40);
    let c = BackendConfig::default();
    assert_eq!(c.configured_type(), None);
    let c = BackendConfig { backend_type: "rknn3".to_string(), lib_dir: None };
    assert_eq!(c.configured_type(), Some("rknn3"));
}

#[test]
fn health_reports() {
    let h = health_response("cpu".to_string(), true, 42);
    assert_eq!(h.status, "healthy");
    assert_eq!(h.slots_available, 1);
    assert_eq!(h.uptime_seconds, 42);
    assert_eq!(health_response("cpu".to_string(), false, 0).status, "unhealthy");
    let r = readiness_response(true, true, MemoryStats { used_bytes: 0, total_bytes: 0, free_bytes: 0 });
    assert!(r.ready);
    assert_eq!(r.checks.len(), 3);
    assert_eq!(r.checks[2].detail.as_deref(), Some("0 / 0 bytes used"));
    let r = readiness_response(true, true, MemoryStats { used_bytes: 10, total_bytes: 10, free_bytes: 0 });
    assert!(!r.ready);
    assert_eq!(r.checks[2].status, "warning");
    let r = readiness_response(false, true, MemoryStats { used_bytes: 1, total_bytes: 10, free_bytes: 9 });
    assert!(!r.ready);
    assert_eq!(r.checks[0].status, "error");
    assert_eq!(r.checks[0].detail.as_deref(), Some("Model not loaded"));
    assert_eq!(r.checks[2].detail.as_deref(), Some("1 / 10 bytes used"));
}

#[test]
fn token_filtering_and_native_counts() {
    let kept = filter_special_tokens(&[1, 2, 3, 151643, 151644, 7, 9], 3, 1, &[false, false, false, false, false, true, false]);
    assert_eq!(kept, vec![2, 9]);
    assert_eq!(tokenize_result(2, vec![5, 6, 7]).ok(), Some(vec![5, 6]));
    assert_eq!(tokenize_result(9, vec![5, 6, 7]).ok(), Some(vec![5, 6, 7]));
    match tokenize_result(-12, vec![]) {
        Err(InferenceError::TokenizationFailed(m)) => assert_eq!(m, "Tokenization failed, need 12 tokens"),
        _ => panic!("negative count must fail"),
    }
    assert_eq!(detokenize_result(4).ok(), Some(4));
    assert!(matches!(detokenize_result(-1), Err(InferenceError::TokenizationFailed(m)) if m == "Detokenization failed"));
}

#[test]
fn native_library_directory() {
    assert_eq!(lib_dir_for_arch("x86_64"), "lib/x86_64");
    assert_eq!(lib_dir_for_arch("aarch64"), "lib/aarch64");
    assert_eq!(lib_dir_for_arch(""), "lib/x86_64");
}

#[test]
fn handle_wrappers() {
    let p = SendPtr::new(5u32);
    assert_eq!(*p.get(), 5);
    let q = SyncPtr::new("h");
    assert_eq!(*q.get(), "h");
}

#[test]
fn rknn3_plain_values() {
    assert_eq!(MemAllocFlags::default(), MemAllocFlags::Cacheable);
    assert_eq!(KvCachePolicy::default(), KvCachePolicy::Recurrent);
    let p = KvCachePolicyParam::new(4, 8);
    assert_eq!((p.n_keep, p.n_keep_aligned), (4, 8));
    let ip = InferParams::new();
    assert_eq!((ip.keep_history, ip.max_new_tokens), (false, 512));
    let ip = InferParams::new().max_new_tokens(64).keep_history(true);
    assert_eq!((ip.keep_history, ip.max_new_tokens), (true, 64));
    assert_eq!(ip.keep_history_flag(), 1);
    assert_eq!(KvCacheDtype::from_code(8), Some(KvCacheDtype::Float16));
    assert_eq!(KvCacheDtype::from_code(9), None);
    assert_eq!(KvCacheDtype::Int8ToF16.code(), 3);
    assert_eq!(KvCacheStoreMethod::from_code(2), Some(KvCacheStoreMethod::GroupQuant));
    assert_eq!(LlmTaskType::from_code(1), Some(LlmTaskType::Embedding));
    assert_eq!(LlmTaskType::from_code(2), None);
    assert_eq!(CallbackError::EmbedFailed.message(), "embedding lookup failed");
}

#[test]
fn decimal_text() {
    assert_eq!(u64_to_text(0), "0");
    assert_eq!(u64_to_text(1234567890), "1234567890");
    assert_eq!(u64_to_text(u64::MAX), "18446744073709551615");
}

#[test]
fn detokenize_steps() {
    assert!(matches!(detokenize_step(&[], true, false, 2, 1, &[]), DetokenizeStep::Empty));
    assert!(matches!(detokenize_step(&[2, 1, 151645], true, true, 2, 1, &[false, false, false]), DetokenizeStep::Empty));
    match detokenize_step(&[1, 10, 2, 11, 12], true, true, 2, 1, &[false, false, false, false, true]) {
        DetokenizeStep::Native { tokens, unparse_special } => {
            assert_eq!(tokens, vec![10, 11]);
            assert!(!unparse_special);
        }
        DetokenizeStep::Empty => panic!("kept tokens must be decoded"),
    }
    match detokenize_step(&[1, 151650], false, true, 2, 1, &[]) {
        DetokenizeStep::Native { tokens, unparse_special } => {
            assert_eq!(tokens, vec![1, 151650]);
            assert!(unparse_special);
        }
        DetokenizeStep::Empty => panic!("tokens must be decoded as they are"),
    }
}

#[test]
fn special_ids_fill_at_most_the_table() {
    let mut table = vec![9; 64];
    assert_eq!(fill_special_ids(&mut table, &[1, 2, 3]), 3);
    assert_eq!(&table[..4], &[1, 2, 3, 9]);
    let ids: Vec<i32> = (0..70).collect();
    let mut table = vec![0; 64];
    assert_eq!(fill_special_ids(&mut table, &ids), 64);
    assert_eq!(table, (0..64).collect::<Vec<i32>>());
}

#[test]
fn c_text_refuses_nul_bytes() {
    assert!(check_c_text("héllo").is_ok());
    match check_c_text("hé\0llo") {
        Err(InferenceError::TokenizationFailed(m)) => {
            assert_eq!(m, "nul byte found in provided data at position: 3");
        }
        _ => panic!("a NUL byte must be refused"),
    }
}
