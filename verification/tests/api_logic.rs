use lingbase::api::chat::{
    chat_prompt, chat_response, completion_id, models_response, render_messages, response_text,
    runner_prompt, stream_chunk,
};
use lingbase::api::types::{Message, StreamMetricsState};
use lingbase::error::InferenceError;

fn msg(role: &str, content: &str) -> Message {
    Message { role: role.to_string(), content: content.to_string() }
}

#[test]
fn prompt_follows_the_chat_template() {
    let ms = vec![msg("system", "be brief"), msg("user", "hi")];
    assert_eq!(
        chat_prompt(&ms),
        "<|im_start|>system\nbe brief<|im_end|>\n<|im_start|>user\nhi<|im_end|><|im_start|>assistant\n/no_think\n"
    );
    assert_eq!(
        runner_prompt(&ms),
        "<|im_start|>system\nbe brief<|im_end|>\n<|im_start|>user\nhi<|im_end|><|im_start|>assistant\n"
    );
    assert_eq!(render_messages(&vec![]), "");
}

#[test]
fn responses_and_chunks() {
    assert_eq!(completion_id("abc"), "chatcmpl-abc");
    let r = chat_response("id".to_string(), 5, "m".to_string(), "hello".to_string(), 7, 3);
    assert_eq!(r.object, "chat.completion");
    assert_eq!(r.usage.total_tokens, 10);
    assert_eq!(r.choices.len(), 1);
    assert_eq!(r.choices[0].message.role, "assistant");
    assert_eq!(r.choices[0].message.content, "hello");
    assert_eq!(r.choices[0].finish_reason, "stop");
    let c = stream_chunk("id".to_string(), 1, "m".to_string(), "x".to_string(), true, false);
    assert_eq!(c.object, "chat.completion.chunk");
    assert_eq!(c.choices[0].delta.role.as_deref(), Some("assistant"));
    assert_eq!(c.choices[0].delta.content.as_deref(), Some("x"));
    let c = stream_chunk("id".to_string(), 1, "m".to_string(), "y".to_string(), false, false);
    assert!(c.choices[0].delta.role.is_none());
    assert_eq!(c.choices[0].delta.content.as_deref(), Some("y"));
    let c = stream_chunk("id".to_string(), 1, "m".to_string(), "z".to_string(), true, true);
    assert!(c.choices[0].delta.content.is_none());
    assert_eq!(c.choices[0].finish_reason.as_deref(), Some("stop"));
    let m = models_response(9);
    assert_eq!(m.object, "list");
    assert_eq!(m.data[0].id, "Qwen3-4B");
    assert_eq!(m.data[0].owned_by, "Qwen");
    assert_eq!(m.data[0].created, 9);
}

#[test]
fn response_text_trims_leading_whitespace() {
    assert_eq!(response_text(Ok("\n  answer ".to_string())), "answer ");
    assert_eq!(response_text(Err(InferenceError::ModelNotLoaded)), "Failed to decode response");
    assert_eq!(response_text(Ok("\u{3000}\u{a0}\u{2009}x y".to_string())), "x y");
    assert_eq!(response_text(Ok("\u{200b}x".to_string())), "\u{200b}x");
}

#[test]
fn metrics_record_tokens_and_latencies() {
    let mut m = StreamMetricsState::default();
    m.record_token(100, true);
    m.record_token(130, false);
    m.record_token(190, false);
    m.record_token(200, false);
    assert_eq!(m.ttft_ms, 100);
    assert_eq!(m.completion_tokens, 4);
    assert_eq!(m.inter_token_latencies, vec![30, 60, 10]);
    assert_eq!(m.latency_sum(), Some(100));
    assert_eq!(m.last_token_time_ms, 200);
}

#[test]
fn percentiles_of_latencies() {
    let lat: Vec<u64> = (1..=10).rev().collect();
    assert_eq!(StreamMetricsState::compute_percentile(&lat, 90), 10);
    assert_eq!(StreamMetricsState::compute_percentile(&lat, 50), 6);
    assert_eq!(StreamMetricsState::compute_percentile(&lat, 0), 1);
    assert_eq!(StreamMetricsState::compute_percentile(&[], 99), 0);
    let lat: Vec<u64> = (0..100).collect();
    assert_eq!(StreamMetricsState::compute_percentile(&lat, 99), 99);
    assert_eq!(StreamMetricsState::compute_percentile(&lat, 90), 90);
    let mut m = StreamMetricsState::default();
    m.inter_token_latencies = vec![5, 1, 9, 3];
    assert_eq!(m.compute_p90(), 9);
    assert_eq!(m.compute_p99(), 9);
    m.inter_token_latencies = vec![u64::MAX, 1];
    assert_eq!(m.latency_sum(), None);
}

#[test]
fn percentiles_are_ordered_samples_that_bound_their_share() {
    let lat: Vec<u64> = vec![40, 3, 17, 17, 250, 8, 99, 1, 64, 12, 5, 33];
    let mut prev = 0;
    for p in 0..=100u64 {
        let v = StreamMetricsState::compute_percentile(&lat, p);
        assert!(v >= prev);
        assert!(lat.contains(&v));
        let at_or_below = lat.iter().filter(|&&x| x <= v).count() as u64;
        assert!(at_or_below * 100 >= p * lat.len() as u64);
        prev = v;
    }
}

#[test]
fn metrics_from_token_times() {
    let m = StreamMetricsState::from_token_times(&[100, 130, 170, 170]);
    assert_eq!(m.ttft_ms, 100);
    assert_eq!(m.completion_tokens, 4);
    assert_eq!(m.inter_token_latencies, vec![30, 40, 0]);
    assert_eq!(m.last_token_time_ms, 170);
    assert_eq!(m.latency_sum(), Some(70));
    let empty = StreamMetricsState::from_token_times(&[]);
    assert_eq!(empty.completion_tokens, 0);
    assert!(empty.inter_token_latencies.is_empty());
}
