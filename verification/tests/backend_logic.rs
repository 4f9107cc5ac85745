use lingbase::backend::backend::{ForwardResult, MemoryStats};
use lingbase::backend::error::BackendError;
use lingbase::backend::factory::BackendFactory;
use lingbase::backend::manager::{load_plan, BackendRegistry, LoadPlan};
use lingbase::backend::runner::generation::{GenOutput, GenRequest, Generation};
use lingbase::backend::runner::sample::select_token;
use lingbase::backend::runner_rknn3::{
    check_context_size, parse_core_mask, pool_size, rknn3_request, Rknn3Error,
};
use lingbase::backend::traits::{
    stream_token_of, CollectStep, ForwardCollector, LLMInferenceInput, LLMSteamChunkType,
    StreamChunk,
};
use lingbase::backend::types::{BackendType, FinishReason};
use lingbase::backend::cuda::CudaBackend;
use lingbase::backend::cpu::{detokenize_ids, CpuHardware};
use lingbase::api::types::Message;
use lingbase::error::InferenceError;

#[test]
fn backend_type_names_round_trip() {
    for t in [BackendType::LlamaCpu, BackendType::LlamaCuda, BackendType::Rknn3, BackendType::Proxy] {
        assert_eq!(BackendType::from_str(t.as_str()), Some(t));
        assert_eq!(BackendType::from_lowercase(t.as_str()), Some(t));
    }
}

#[test]
fn backend_type_parsing_ignores_case_and_knows_aliases() {
    assert_eq!(BackendType::from_str("CPU"), Some(BackendType::LlamaCpu));
    assert_eq!(BackendType::from_str("Llama-Cuda"), Some(BackendType::LlamaCuda));
    assert_eq!(BackendType::from_str("RKNN"), Some(BackendType::Rknn3));
    assert_eq!(BackendType::from_str("proxy"), Some(BackendType::Proxy));
    assert_eq!(BackendType::from_str("gpu"), None);
    assert_eq!(BackendType::from_lowercase("CPU"), None);
    assert_eq!(BackendType::default(), BackendType::LlamaCpu);
}

#[test]
fn factory_defaults_to_cpu_and_refuses_others() {
    assert_eq!(BackendFactory::auto_detect(), BackendType::LlamaCpu);
    assert!(!BackendFactory::cuda_available());
    assert!(BackendFactory::check_creatable(BackendType::LlamaCpu).is_ok());
    match BackendFactory::check_creatable(BackendType::LlamaCuda) {
        Err(InferenceError::BackendNotAvailable(m)) => assert_eq!(m, "CUDA"),
        _ => panic!("CUDA must be refused"),
    }
    match BackendFactory::check_creatable(BackendType::Proxy) {
        Err(InferenceError::BackendNotAvailable(m)) => assert_eq!(m, "Proxy backend not yet implemented"),
        _ => panic!("proxy must be refused"),
    }
    assert!(matches!(
        CudaBackend::new("model.gguf", 4096),
        Err(InferenceError::BackendNotAvailable(m)) if m == "CUDA backend not yet implemented"
    ));
    assert_eq!(CpuHardware::new().name(), "llama-cpu");
}

#[test]
fn load_plan_matches_exact_names() {
    assert_eq!(load_plan(Some("cpu")).ok(), Some(LoadPlan::LlamaCpu));
    assert_eq!(load_plan(Some("llama-cpu")).ok(), Some(LoadPlan::LlamaCpu));
    assert!(matches!(load_plan(Some("CPU")), Err(BackendError::UnknownBackend(m)) if m == "CPU"));
    assert!(matches!(load_plan(None), Err(BackendError::UnknownBackend(m)) if m == "No backend type configured"));
    assert!(matches!(load_plan(Some("rknn3")), Err(BackendError::BackendNotAvailable(_))));
}

#[test]
fn error_codes_and_server_faults() {
    let e = InferenceError::PromptTooLong(10, 5);
    assert_eq!(e.error_code(), "PROMPT_TOO_LONG");
    assert!(!e.is_server_error());
    let e = InferenceError::FfiError("x".to_string());
    assert_eq!(e.error_code(), "FFI_ERROR");
    assert!(e.is_server_error());
    assert_eq!(InferenceError::Timeout(std::time::Duration::from_secs(1)).error_code(), "TIMEOUT");
    assert_eq!(InferenceError::NoTokensGenerated.error_code(), "NO_TOKENS");
    assert!(InferenceError::MemoryAllocationFailed.is_server_error());
    assert!(!InferenceError::ModelNotLoaded.is_server_error());
}

#[test]
fn backend_errors_convert_with_their_message() {
    let e: InferenceError = BackendError::LLMBusy("pool empty".to_string()).into();
    match e {
        InferenceError::BackendError(m) => assert_eq!(m, "LLM is busy: pool empty"),
        _ => panic!("wrong variant"),
    }
    assert_eq!(BackendError::BackendNotInitialized.message(), "Backend not initialized");
    let b: BackendError = Rknn3Error::InvalidModelPath("p".to_string()).into();
    assert!(matches!(b, BackendError::Internal(m) if m == "p"));
    let b: BackendError = Rknn3Error::SessionError("s".to_string()).into();
    assert!(matches!(b, BackendError::InferenceFailed(m) if m == "s"));
}

#[test]
fn core_mask_parsing() {
    assert_eq!(parse_core_mask("0xff"), 0xff);
    assert_eq!(parse_core_mask("0x3"), 3);
    assert_eq!(parse_core_mask("1F"), 0x1f);
    assert_eq!(parse_core_mask("0x0x7"), 7);
    assert_eq!(parse_core_mask("+a"), 10);
    assert_eq!(parse_core_mask(""), 0xff);
    assert_eq!(parse_core_mask("0x"), 0xff);
    assert_eq!(parse_core_mask("zz"), 0xff);
    assert_eq!(parse_core_mask("-1"), 0xff);
    assert_eq!(parse_core_mask("0xffffffff"), u32::MAX);
    assert_eq!(parse_core_mask("0x100000000"), 0xff);
    assert_eq!(parse_core_mask("0x00000000001"), 1);
}

#[test]
fn pool_and_context_checks() {
    assert_eq!(pool_size(0), 1);
    assert_eq!(pool_size(3), 3);
    assert!(check_context_size(4096, 4096).is_ok());
    match check_context_size(8192, 4096) {
        Err(Rknn3Error::ModelInitFailed(m)) => assert_eq!(m, "context_size (8192) exceeds max_ctx_len (4096)"),
        _ => panic!("must be refused"),
    }
}

#[test]
fn rknn3_requests_take_tokens_only() {
    let q = rknn3_request(LLMInferenceInput::Tokens(vec![1, 2, u32::MAX]), Some(true), 4096).ok().unwrap();
    assert_eq!(q.tokens, vec![1, 2, -1]);
    assert_eq!(q.role, "user");
    assert!(q.enable_thinking);
    assert_eq!(q.params.max_new_tokens, 4096);
    assert!(!q.params.keep_history);
    let q = rknn3_request(LLMInferenceInput::Tokens(vec![]), None, 16).ok().unwrap();
    assert!(!q.enable_thinking);
    let msgs = vec![Message { role: "user".to_string(), content: "hi".to_string() }];
    match rknn3_request(LLMInferenceInput::Messages(msgs), None, 16) {
        Err(BackendError::UnsupportedInput(m)) => assert_eq!(m, "RKNN3 backend only supports token input"),
        _ => panic!("messages must be refused"),
    }
}

#[test]
fn greedy_selection_picks_first_maximum() {
    assert_eq!(select_token(&[1, 5, 3, 5], 4), 1);
    assert_eq!(select_token(&[7], 1), 0);
    assert_eq!(select_token(&[1, 2, 9], 2), 1);
    assert_eq!(select_token(&[-3, -1, -2], 3), 1);
}

#[test]
fn collector_notes_first_token_and_errors() {
    let mut c = ForwardCollector::new();
    let tok = StreamChunk::Normal(LLMSteamChunkType::RawToken("a".to_string()));
    assert!(matches!(c.on_chunk(&tok, 12), CollectStep::Continue));
    assert!(matches!(c.on_chunk(&tok, 30), CollectStep::Continue));
    assert_eq!(c.first_token_ms, Some(12));
    assert!(matches!(c.on_chunk(&StreamChunk::Finish(FinishReason::Stop), 40), CollectStep::Finished));
    match c.on_chunk(&StreamChunk::Error("boom".to_string()), 41) {
        CollectStep::Failed(InferenceError::InferenceFailed(m)) => assert_eq!(m, "boom"),
        _ => panic!("error must fail the collection"),
    }
    let r: ForwardResult = c.finish(50);
    assert!(r.tokens.is_empty());
    assert_eq!(r.first_token_ms, Some(12));
    assert_eq!(r.total_ms, 50);
    let m = MemoryStats::default();
    assert_eq!((m.used_bytes, m.total_bytes, m.free_bytes), (0, 0, 0));
}

#[test]
fn collector_gathers_generated_token_ids() {
    let mut c = ForwardCollector::new();
    for (id, at) in [(101u32, 7u64), (102, 9), (103, 15)] {
        let chunk = StreamChunk::Normal(LLMSteamChunkType::Chunk { text: format!("t{}", id), token_id: id });
        assert!(matches!(c.on_chunk(&chunk, at), CollectStep::Continue));
    }
    assert!(matches!(c.on_chunk(&StreamChunk::Finish(FinishReason::Length), 20), CollectStep::Finished));
    let r: ForwardResult = c.finish(21);
    assert_eq!(r.tokens, vec![101, 102, 103]);
    assert_eq!(r.first_token_ms, Some(7));
    assert_eq!(r.total_ms, 21);
}

#[test]
fn collector_after_generation_reports_every_token() {
    let (sent, err) = drive(3, None, None);
    assert!(err.is_none());
    let mut c = ForwardCollector::new();
    for chunk in &sent {
        let _ = c.on_chunk(chunk, 1);
    }
    assert_eq!(c.finish(2).tokens, vec![101, 102, 103]);
}


fn drive(max_tokens: usize, eog_at: Option<i32>, fail_text_for: Option<i32>) -> (Vec<StreamChunk>, Option<BackendError>) {
    let mut g = Generation::new(max_tokens);
    let mut next_token = 100;
    let mut sent = Vec::new();
    loop {
        let out = match g.request() {
            GenRequest::DecodePrompt | GenRequest::DecodeToken(_) => g.on_decoded(Ok(())),
            GenRequest::Sample => {
                next_token += 1;
                g.on_sampled(Some(next_token))
            }
            GenRequest::TokenText(t) => {
                if Some(t) == fail_text_for {
                    g.on_text(Err("bad".to_string()))
                } else {
                    g.on_text(Ok(format!("t{}", t)))
                }
            }
            GenRequest::CheckEog(t) => g.on_eog(Some(t) == eog_at),
            GenRequest::BudgetSpent => g.on_budget_spent(),
            GenRequest::Stop => break,
        };
        match out {
            GenOutput::Nothing => {}
            GenOutput::Send(c) => sent.push(c),
            GenOutput::Abort(e) => return (sent, Some(e)),
        }
    }
    (sent, None)
}

#[test]
fn generation_stops_at_token_limit() {
    let (sent, err) = drive(3, None, None);
    assert!(err.is_none());
    assert_eq!(sent.len(), 4);
    assert!(matches!(&sent[0], StreamChunk::Normal(LLMSteamChunkType::Chunk { text, token_id: 101 }) if text == "t101"));
    assert!(matches!(&sent[2], StreamChunk::Normal(LLMSteamChunkType::Chunk { text, token_id: 103 }) if text == "t103"));
    assert!(matches!(sent[3], StreamChunk::Finish(FinishReason::Length)));
}

#[test]
fn generation_stops_at_end_of_generation_token() {
    let (sent, err) = drive(10, Some(102), None);
    assert!(err.is_none());
    assert_eq!(sent.len(), 3);
    assert!(matches!(sent[2], StreamChunk::Finish(FinishReason::Stop)));
}

#[test]
fn generation_with_zero_limit_sends_first_token() {
    let (sent, err) = drive(0, None, None);
    assert!(err.is_none());
    assert_eq!(sent.len(), 2);
    assert!(matches!(sent[1], StreamChunk::Finish(FinishReason::Length)));
}

#[test]
fn generation_skips_tokens_without_text() {
    let (sent, _) = drive(4, None, Some(102));
    assert_eq!(sent.len(), 4);
    assert!(matches!(&sent[1], StreamChunk::Normal(LLMSteamChunkType::Chunk { text, token_id: 103 }) if text == "t103"));
    let (sent, err) = drive(4, None, Some(101));
    assert!(sent.is_empty());
    assert!(matches!(err, Some(BackendError::TokenizerFailed(m)) if m == "bad"));
}

#[test]
fn generation_failures() {
    let mut g = Generation::new(5);
    assert!(g.in_prefill());
    assert!(matches!(g.on_decoded(Err("decode".to_string())), GenOutput::Abort(BackendError::InferenceFailed(m)) if m == "decode"));
    assert_eq!(g.request(), GenRequest::Stop);
    let mut g = Generation::new(5);
    let _ = g.on_decoded(Ok(()));
    assert!(matches!(g.on_sampled(None), GenOutput::Abort(BackendError::InferenceFailed(m)) if m == "Failed to get logits"));
    let mut g = Generation::new(5);
    let _ = g.on_decoded(Ok(()));
    let _ = g.on_sampled(Some(1));
    let _ = g.on_text(Ok("x".to_string()));
    assert!(!g.in_prefill());
    assert_eq!(g.request(), GenRequest::CheckEog(1));
    let _ = g.on_eog(false);
    assert!(matches!(g.on_decoded(Err("later".to_string())), GenOutput::Send(StreamChunk::Error(m)) if m == "later"));
}

#[test]
fn chunks_become_stream_tokens() {
    let t = stream_token_of(StreamChunk::Normal(LLMSteamChunkType::RawToken("hi".to_string()))).ok().unwrap();
    assert_eq!((t.token, t.text.as_str(), t.is_first, t.is_done), (0, "hi", false, false));
    let t = stream_token_of(StreamChunk::Finish(FinishReason::Length)).ok().unwrap();
    assert!(t.is_done && t.text.is_empty());
    let t = stream_token_of(StreamChunk::Normal(LLMSteamChunkType::Chunk { text: "x".to_string(), token_id: 3 })).ok().unwrap();
    assert_eq!((t.token, t.text.as_str(), t.is_first, t.is_done), (3, "x", false, false));
    assert!(matches!(stream_token_of(StreamChunk::Error("e".to_string())), Err(InferenceError::InferenceFailed(m)) if m == "e"));
}

#[test]
fn registry_get_after_insert_and_unload() {
    let mut r: BackendRegistry<u32> = BackendRegistry::new();
    assert!(r.get("a").is_none());
    r.insert("a".to_string(), 1);
    r.insert("b".to_string(), 2);
    assert_eq!(r.get("a"), Some(&1));
    assert_eq!(r.get("b"), Some(&2));
    r.insert("a".to_string(), 3);
    assert_eq!(r.get("a"), Some(&3));
    let mut names = r.names();
    names.sort();
    assert_eq!(names, vec!["a".to_string(), "b".to_string()]);
    assert!(r.unload("a").is_ok());
    assert!(r.get("a").is_none());
    assert_eq!(r.get("b"), Some(&2));
    assert!(matches!(r.unload("a"), Err(BackendError::BackendNotInitialized)));
    assert_eq!(r.names(), vec!["b".to_string()]);
}

#[test]
fn service_error_messages() {
    assert_eq!(InferenceError::PromptTooLong(5000, 4096).message(), "Prompt too long: 5000 tokens (max: 4096)");
    assert_eq!(InferenceError::BackendNotAvailable("CUDA".to_string()).message(), "Backend 'CUDA' not available");
    assert_eq!(
        InferenceError::ModelLoadFailed("/m.gguf".to_string()).message(),
        "Failed to load model from /m.gguf: file not found or invalid format"
    );
    assert_eq!(InferenceError::NoTokensGenerated.message(), "No tokens generated");
    assert_eq!(
        InferenceError::Timeout(std::time::Duration::from_millis(1500)).message(),
        "Inference timeout after 1.5s"
    );
}

#[test]
fn cpu_detokenize_writes_ids_in_decimal() {
    assert_eq!(detokenize_ids(&[12, -3, 0]), "12-30");
    assert_eq!(detokenize_ids(&[]), "");
}

#[test]
fn registry_load_stores_only_what_was_built() {
    let mut r: BackendRegistry<u32> = BackendRegistry::new();
    assert!(r.load("m".to_string(), Some("cpu"), |_| Ok(7)).is_ok());
    assert_eq!(r.get("m"), Some(&7));
    let e = r.load("n".to_string(), Some("llama-cpu"), |_| Err(BackendError::InferenceFailed("x".to_string())));
    assert!(matches!(e, Err(BackendError::InferenceFailed(m)) if m == "x"));
    assert!(matches!(r.load("n".to_string(), Some("rknn3"), |_| Ok(1)), Err(BackendError::BackendNotAvailable(_))));
    assert!(matches!(r.load("n".to_string(), Some("gpu"), |_| Ok(1)), Err(BackendError::UnknownBackend(m)) if m == "gpu"));
    assert!(matches!(r.load("n".to_string(), None, |_| Ok(1)), Err(BackendError::UnknownBackend(m)) if m == "No backend type configured"));
    assert_eq!(r.names(), vec!["m".to_string()]);
}

#[test]
fn rknn3_error_messages() {
    assert_eq!(Rknn3Error::ModelInitFailed("x".to_string()).message(), "Model init failed: x");
    assert_eq!(Rknn3Error::SessionError("y".to_string()).message(), "Session error: y");
    assert_eq!(Rknn3Error::LlmBusy("z".to_string()).message(), "LLM is busy: z");
    assert_eq!(Rknn3Error::InvalidModelPath("p".to_string()).message(), "Invalid model path: p");
}

#[test]
fn timeout_message_writes_the_duration() {
    assert_eq!(InferenceError::Timeout(std::time::Duration::from_secs(30)).message(), "Inference timeout after 30s");
    assert_eq!(InferenceError::Timeout(std::time::Duration::from_micros(2500)).message(), "Inference timeout after 2.5ms");
}
