//! Assembly of chat prompts, completion responses and stream chunks.

use vstd::prelude::*;
use crate::api::types::{
    ChatCompletionResponse, Choice, Delta, Message, ModelInfo, ModelsResponse, StreamChoice,
    StreamChunk, Usage,
};
use crate::error::InferenceError;
use crate::text::concat2;

verus! {

/// One message in the chat template: `<|im_start|>{role}\n{content}<|im_end|>`.
pub open spec fn message_block(m: Message) -> Seq<char> {
    "<|im_start|>"@ + m.role@ + "\n"@ + m.content@ + "<|im_end|>"@
}

/// The messages in the chat template, separated by newlines.
pub open spec fn message_blocks(ms: Seq<Message>) -> Seq<char>
    decreases ms.len(),
{
    if ms.len() == 0 {
        Seq::empty()
    } else if ms.len() == 1 {
        message_block(ms[0])
    } else {
        message_blocks(ms.drop_last()) + "\n"@ + message_block(ms.last())
    }
}

/// The prompt of a chat completion request: the messages, then the opening
/// of the assistant's turn with thinking switched off.
pub open spec fn chat_prompt_text(ms: Seq<Message>) -> Seq<char> {
    message_blocks(ms) + "<|im_start|>assistant\n/no_think\n"@
}

/// The prompt a llama.cpp runner builds from messages: the messages, then
/// the opening of the assistant's turn.
pub open spec fn runner_prompt_text(ms: Seq<Message>) -> Seq<char> {
    message_blocks(ms) + "<|im_start|>assistant\n"@
}

/// The messages in the chat template, separated by newlines.
pub fn render_messages(messages: &Vec<Message>) -> (s: String)
    ensures
        s@ == message_blocks(messages@),
{
    let mut s = String::new();
    let mut i: usize = 0;
    while i < messages.len()
        invariant
            i <= messages@.len(),
            s@ == message_blocks(messages@.subrange(0, i as int)),
        decreases messages@.len() - i,
    {
        proof {
            let sub = messages@.subrange(0, i + 1);
            assert(sub.drop_last() =~= messages@.subrange(0, i as int));
            assert(sub.last() == messages@[i as int]);
            if i == 0 {
                assert(messages@.subrange(0, 0) =~= Seq::<Message>::empty());
            }
        }
        if i > 0 {
            s.append("\n");
        }
        let m = &messages[i];
        s.append("<|im_start|>");
        s.append(m.role.as_str());
        s.append("\n");
        s.append(m.content.as_str());
        s.append("<|im_end|>");
        proof {
            let sub = messages@.subrange(0, i + 1);
            if i == 0 {
                assert(s@ =~= message_block(messages@[0]));
            } else {
                assert(s@ =~= message_blocks(sub.drop_last()) + "\n"@ + message_block(sub.last()));
            }
        }
        i = i + 1;
    }
    proof {
        assert(messages@.subrange(0, messages@.len() as int) =~= messages@);
    }
    s
}

/// The prompt of a chat completion request.
pub fn chat_prompt(messages: &Vec<Message>) -> (s: String)
    ensures
        s@ == chat_prompt_text(messages@),
{
    let mut s = render_messages(messages);
    s.append("<|im_start|>assistant\n/no_think\n");
    s
}

/// The prompt a llama.cpp runner builds from messages.
pub fn runner_prompt(messages: &Vec<Message>) -> (s: String)
    ensures
        s@ == runner_prompt_text(messages@),
{
    let mut s = render_messages(messages);
    s.append("<|im_start|>assistant\n");
    s
}

/// The completion id for a request id: `chatcmpl-{request_id}`.
pub fn completion_id(request_id: &str) -> (s: String)
    ensures
        s@ == "chatcmpl-"@ + request_id@,
{
    concat2("chatcmpl-", request_id)
}

/// The response to a non-streaming request: one assistant choice with the
/// text, finished by `stop`, and the usage of prompt and completion tokens.
pub fn chat_response(
    id: String,
    created: u64,
    model: String,
    text: String,
    prompt_tokens: usize,
    completion_tokens: usize,
) -> (r: ChatCompletionResponse)
    requires
        prompt_tokens + completion_tokens <= usize::MAX,
    ensures
        r.id == id,
        r.object@ == "chat.completion"@,
        r.created == created,
        r.model == model,
        r.choices@.len() == 1,
        r.choices@[0].index == 0,
        r.choices@[0].message.role@ == "assistant"@,
        r.choices@[0].message.content == text,
        r.choices@[0].finish_reason@ == "stop"@,
        r.usage.prompt_tokens == prompt_tokens,
        r.usage.completion_tokens == completion_tokens,
        r.usage.total_tokens == prompt_tokens + completion_tokens,
{
    let choice = Choice {
        index: 0,
        message: Message { role: String::from_str("assistant"), content: text },
        finish_reason: String::from_str("stop"),
    };
    let mut choices: Vec<Choice> = Vec::new();
    choices.push(choice);
    ChatCompletionResponse {
        id,
        object: String::from_str("chat.completion"),
        created,
        model,
        choices,
        usage: Usage {
            prompt_tokens,
            completion_tokens,
            total_tokens: prompt_tokens + completion_tokens,
        },
    }
}

/// One event of a streamed completion: the final event carries no content
/// and finishes with `stop`; the first token's event also names the
/// assistant's role; any other carries just the token's text.
pub fn stream_chunk(
    id: String,
    created: u64,
    model: String,
    text: String,
    is_first: bool,
    is_done: bool,
) -> (c: StreamChunk)
    ensures
        c.id == id,
        c.object@ == "chat.completion.chunk"@,
        c.created == created,
        c.model == model,
        c.choices@.len() == 1,
        c.choices@[0].index == 0,
        is_done ==> c.choices@[0].delta.role is None && c.choices@[0].delta.content is None,
        is_done ==> (c.choices@[0].finish_reason matches Some(f) && f@ == "stop"@),
        !is_done && is_first ==> (c.choices@[0].delta.role matches Some(r) && r@ == "assistant"@),
        !is_done && is_first ==> c.choices@[0].delta.content == Some(text)
            && c.choices@[0].finish_reason is None,
        !is_done && !is_first ==> c.choices@[0].delta.role is None
            && c.choices@[0].delta.content == Some(text) && c.choices@[0].finish_reason is None,
{
    let choice = if is_done {
        StreamChoice {
            index: 0,
            delta: Delta { role: None, content: None },
            finish_reason: Some(String::from_str("stop")),
        }
    } else if is_first {
        StreamChoice {
            index: 0,
            delta: Delta { role: Some(String::from_str("assistant")), content: Some(text) },
            finish_reason: None,
        }
    } else {
        StreamChoice { index: 0, delta: Delta { role: None, content: Some(text) }, finish_reason: None }
    };
    let mut choices: Vec<StreamChoice> = Vec::new();
    choices.push(choice);
    StreamChunk { id, object: String::from_str("chat.completion.chunk"), created, model, choices }
}

/// The list of served models, as of `created`.
pub fn models_response(created: u64) -> (r: ModelsResponse)
    ensures
        r.object@ == "list"@,
        r.data@.len() == 1,
        r.data@[0].id@ == "Qwen3-4B"@,
        r.data@[0].object@ == "model"@,
        r.data@[0].created == created,
        r.data@[0].owned_by@ == "Qwen"@,
{
    let mut data: Vec<ModelInfo> = Vec::new();
    data.push(
        ModelInfo {
            id: String::from_str("Qwen3-4B"),
            object: String::from_str("model"),
            created,
            owned_by: String::from_str("Qwen"),
        },
    );
    ModelsResponse { object: String::from_str("list"), data }
}

/// Whether `c` has Unicode's `White_Space` property, as `char::is_whitespace`
/// documents it.
pub open spec fn is_white_space(c: char) -> bool {
    let u = c as u32;
    ||| 0x9 <= u <= 0xD
    ||| u == 0x20
    ||| u == 0x85
    ||| u == 0xA0
    ||| u == 0x1680
    ||| 0x2000 <= u <= 0x200A
    ||| u == 0x2028
    ||| u == 0x2029
    ||| u == 0x202F
    ||| u == 0x205F
    ||| u == 0x3000
}

/// The characters of `s` from its first one that is not white space on.
pub open spec fn trimmed_start(s: Seq<char>) -> Seq<char>
    decreases s.len(),
{
    if s.len() > 0 && is_white_space(s[0]) {
        trimmed_start(s.drop_first())
    } else {
        s
    }
}

/// Whether `c` is white space.
fn white_space(c: char) -> (b: bool)
    ensures
        b == is_white_space(c),
{
    let u = c as u32;
    (0x9 <= u && u <= 0xD) || u == 0x20 || u == 0x85 || u == 0xA0 || u == 0x1680 || (0x2000 <= u
        && u <= 0x200A) || u == 0x2028 || u == 0x2029 || u == 0x202F || u == 0x205F || u == 0x3000
}

/// Trimming stops at the first character that is not white space.
proof fn lemma_trimmed_start_at(s: Seq<char>, k: int)
    requires
        0 <= k <= s.len(),
        forall|i: int| 0 <= i < k ==> is_white_space(#[trigger] s[i]),
        k == s.len() || !is_white_space(s[k]),
    ensures
        trimmed_start(s) == s.subrange(k, s.len() as int),
    decreases k,
{
    if k == 0 {
        assert(s.subrange(0, s.len() as int) =~= s);
    } else {
        let t = s.drop_first();
        assert forall|i: int| 0 <= i < k - 1 implies is_white_space(#[trigger] t[i]) by {
            assert(t[i] == s[i + 1]);
        }
        if k < s.len() {
            assert(t[k - 1] == s[k]);
        }
        lemma_trimmed_start_at(t, k - 1);
        assert(t.subrange(k - 1, t.len() as int) =~= s.subrange(k, s.len() as int));
    }
}

/// `s` without its leading white space, as `str::trim_start` gives it.
fn trim_start(s: &str) -> (r: String)
    ensures
        r@ == trimmed_start(s@),
{
    let n: usize = s.unicode_len();
    let mut k: usize = 0;
    while k < n && white_space(s.get_char(k))
        invariant
            n == s@.len(),
            k <= n,
            forall|i: int| 0 <= i < k ==> is_white_space(#[trigger] s@[i]),
        decreases n - k,
    {
        k = k + 1;
    }
    proof {
        lemma_trimmed_start_at(s@, k as int);
    }
    String::from_str(s.substring_char(k, n))
}

/// The assistant's answer text: the detokenized output without leading
/// whitespace, or a fixed notice when detokenization failed.
pub fn response_text(detokenized: Result<String, InferenceError>) -> (s: String)
    ensures
        match detokenized {
            Ok(t) => s@ == trimmed_start(t@),
            Err(_) => s@ == "Failed to decode response"@,
        },
{
    match detokenized {
        Ok(t) => trim_start(t.as_str()),
        Err(_) => {
            proof {
                reveal_strlit("Failed to decode response");
            }
            let s = trim_start("Failed to decode response");
            assert(!is_white_space('F'));
            s
        },
    }
}

} // verus!
