//! Decisions of the RKNN3 backend: its errors, the NPU core mask and pool
//! size it is configured with, the context-size check against the model, and
//! the run parameters of a request.

use vstd::prelude::*;
use crate::backend::error::BackendError;
use crate::backend::traits::LLMInferenceInput;
use crate::rknn3::prelude::InferParams;
use crate::text::{concat2, nat_decimal, push_u64};

verus! {

/// An error of the RKNN3 backend.
#[derive(Debug)]
pub enum Rknn3Error {
    ModelInitFailed(String),
    SessionError(String),
    LlmBusy(String),
    InvalidModelPath(String),
}

impl Rknn3Error {
    /// The message of this error.
    pub open spec fn text(&self) -> Seq<char> {
        match self {
            Rknn3Error::ModelInitFailed(s) => "Model init failed: "@ + s@,
            Rknn3Error::SessionError(s) => "Session error: "@ + s@,
            Rknn3Error::LlmBusy(s) => "LLM is busy: "@ + s@,
            Rknn3Error::InvalidModelPath(s) => "Invalid model path: "@ + s@,
        }
    }

    /// The message of this error.
    pub fn message(&self) -> (m: String)
        ensures
            m@ == self.text(),
    {
        match self {
            Rknn3Error::ModelInitFailed(s) => concat2("Model init failed: ", s.as_str()),
            Rknn3Error::SessionError(s) => concat2("Session error: ", s.as_str()),
            Rknn3Error::LlmBusy(s) => concat2("LLM is busy: ", s.as_str()),
            Rknn3Error::InvalidModelPath(s) => concat2("Invalid model path: ", s.as_str()),
        }
    }
}

/// The backend error an RKNN3 error becomes.
pub open spec fn backend_error_of(e: Rknn3Error) -> BackendError {
    match e {
        Rknn3Error::ModelInitFailed(s) => BackendError::InferenceFailed(s),
        Rknn3Error::SessionError(s) => BackendError::InferenceFailed(s),
        Rknn3Error::LlmBusy(s) => BackendError::LLMBusy(s),
        Rknn3Error::InvalidModelPath(s) => BackendError::Internal(s),
    }
}

impl From<Rknn3Error> for BackendError {
    fn from(e: Rknn3Error) -> (r: BackendError)
        ensures
            r == backend_error_of(e),
    {
        match e {
            Rknn3Error::ModelInitFailed(s) => BackendError::InferenceFailed(s),
            Rknn3Error::SessionError(s) => BackendError::InferenceFailed(s),
            Rknn3Error::LlmBusy(s) => BackendError::LLMBusy(s),
            Rknn3Error::InvalidModelPath(s) => BackendError::Internal(s),
        }
    }
}

impl vstd::std_specs::convert::FromSpecImpl<Rknn3Error> for BackendError {
    open spec fn obeys_from_spec() -> bool {
        true
    }

    open spec fn from_spec(v: Rknn3Error) -> BackendError {
        backend_error_of(v)
    }
}

/// `s` without every leading repetition of `0x`.
pub open spec fn strip_hex_prefixes(s: Seq<char>) -> Seq<char>
    decreases s.len(),
{
    if s.len() >= 2 && s[0] == '0' && s[1] == 'x' {
        strip_hex_prefixes(s.skip(2))
    } else {
        s
    }
}

/// The value of a hexadecimal digit.
pub open spec fn hex_digit_value(c: char) -> Option<nat> {
    if '0' <= c && c <= '9' {
        Some((c as nat - '0' as nat) as nat)
    } else if 'a' <= c && c <= 'f' {
        Some((c as nat - 'a' as nat + 10) as nat)
    } else if 'A' <= c && c <= 'F' {
        Some((c as nat - 'A' as nat + 10) as nat)
    } else {
        None
    }
}

/// The value of a string of hexadecimal digits, most significant first;
/// `None` when some character is not a hexadecimal digit.
pub open spec fn hex_value(d: Seq<char>) -> Option<nat>
    decreases d.len(),
{
    if d.len() == 0 {
        Some(0)
    } else {
        match (hex_value(d.drop_last()), hex_digit_value(d.last())) {
            (Some(v), Some(x)) => Some(v * 16 + x),
            _ => None,
        }
    }
}

/// Parsing `t` as a base-16 `u32`: an optional `+`, then one or more
/// hexadecimal digits whose value fits.
pub open spec fn parse_hex_u32(t: Seq<char>) -> Option<u32> {
    let digits = if t.len() > 0 && t[0] == '+' {
        t.skip(1)
    } else {
        t
    };
    if digits.len() == 0 {
        None
    } else {
        match hex_value(digits) {
            Some(v) => if v <= u32::MAX {
                Some(v as u32)
            } else {
                None
            },
            None => None,
        }
    }
}

/// The NPU core mask a configured text selects: the text without its leading
/// `0x` prefixes, read as hexadecimal; all cores (`0xff`) when that fails.
pub open spec fn core_mask_of(s: Seq<char>) -> u32 {
    match parse_hex_u32(strip_hex_prefixes(s)) {
        Some(m) => m,
        None => 0xff,
    }
}

fn hex_digit(c: char) -> (r: Option<u32>)
    ensures
        r matches Some(x) ==> hex_digit_value(c) == Some(x as nat) && x < 16,
        r is None <==> hex_digit_value(c) is None,
{
    if '0' <= c && c <= '9' {
        Some((c as u32) - ('0' as u32))
    } else if 'a' <= c && c <= 'f' {
        Some((c as u32) - ('a' as u32) + 10)
    } else if 'A' <= c && c <= 'F' {
        Some((c as u32) - ('A' as u32) + 10)
    } else {
        None
    }
}

proof fn lemma_hex_value_grows(d: Seq<char>, k: int)
    requires
        0 <= k <= d.len(),
        hex_value(d) is Some,
    ensures
        hex_value(d.subrange(0, k)) is Some,
        hex_value(d.subrange(0, k))->0 <= hex_value(d)->0,
    decreases d.len(),
{
    if k == d.len() {
        assert(d.subrange(0, k) =~= d);
    } else {
        assert(d.drop_last().subrange(0, k) =~= d.subrange(0, k));
        lemma_hex_value_grows(d.drop_last(), k);
    }
}

proof fn lemma_hex_value_fails_on_prefix(d: Seq<char>, k: int)
    requires
        0 <= k <= d.len(),
        hex_value(d.subrange(0, k)) is None,
    ensures
        hex_value(d) is None,
    decreases d.len(),
{
    if k == d.len() {
        assert(d.subrange(0, k) =~= d);
    } else {
        assert(d.drop_last().subrange(0, k) =~= d.subrange(0, k));
        lemma_hex_value_fails_on_prefix(d.drop_last(), k);
    }
}

/// Reads `s` as a base-16 `u32` the way `u32::from_str_radix(s, 16)` does.
pub fn parse_hex(s: &str) -> (r: Option<u32>)
    ensures
        r == parse_hex_u32(s@),
{
    let n: usize = s.unicode_len();
    let mut start: usize = 0;
    if n > 0 && s.get_char(0) == '+' {
        start = 1;
    }
    let ghost digits = if s@.len() > 0 && s@[0] == '+' {
        s@.skip(1)
    } else {
        s@
    };
    if start == n {
        return None;
    }
    proof {
        assert(digits =~= s@.skip(start as int));
        assert(digits.subrange(0, 0) =~= Seq::<char>::empty());
    }
    let mut value: u64 = 0;
    let mut i: usize = start;
    while i < n
        invariant
            n == s@.len(),
            parse_hex_u32(s@) == match hex_value(digits) {
                Some(v) => if v <= u32::MAX {
                    Some(v as u32)
                } else {
                    None::<u32>
                },
                None => None::<u32>,
            },
            start <= i <= n,
            start < n,
            digits == s@.skip(start as int),
            hex_value(digits.subrange(0, i - start)) == Some(value as nat),
            value <= u32::MAX,
        decreases n - i,
    {
        let c = s.get_char(i);
        proof {
            assert(digits.subrange(0, i + 1 - start).drop_last() =~= digits.subrange(
                0,
                i - start,
            ));
            assert(digits.subrange(0, i + 1 - start).last() == c);
        }
        match hex_digit(c) {
            None => {
                proof {
                    lemma_hex_value_fails_on_prefix(digits, i + 1 - start);
                }
                return None;
            },
            Some(x) => {
                let next: u64 = value * 16 + x as u64;
                if next > u32::MAX as u64 {
                    proof {
                        if hex_value(digits) is Some {
                            lemma_hex_value_grows(digits, i + 1 - start);
                        }
                    }
                    return None;
                }
                value = next;
            },
        }
        i = i + 1;
    }
    proof {
        assert(digits.subrange(0, n - start) =~= digits);
    }
    Some(value as u32)
}

/// `s` without every leading repetition of `0x`.
pub fn trim_hex_prefixes(s: &str) -> (r: String)
    ensures
        r@ == strip_hex_prefixes(s@),
{
    let n: usize = s.unicode_len();
    let mut start: usize = 0;
    proof {
        assert(s@.skip(0) =~= s@);
    }
    while n - start >= 2 && s.get_char(start) == '0' && s.get_char(start + 1) == 'x'
        invariant
            n == s@.len(),
            start <= n,
            strip_hex_prefixes(s@) == strip_hex_prefixes(s@.skip(start as int)),
        decreases n - start,
    {
        proof {
            assert(s@.skip(start as int).skip(2) =~= s@.skip(start + 2));
        }
        start = start + 2;
    }
    let rest = s.substring_char(start, n);
    proof {
        assert(rest@ =~= s@.skip(start as int));
    }
    String::from_str(rest)
}

/// The NPU core mask the configured text selects.
pub fn parse_core_mask(s: &str) -> (m: u32)
    ensures
        m == core_mask_of(s@),
{
    let trimmed = trim_hex_prefixes(s);
    match parse_hex(trimmed.as_str()) {
        Some(m) => m,
        None => 0xff,
    }
}

/// Number of LLM instances in the pool: the configured concurrency, at
/// least one.
pub fn pool_size(max_concurrency: usize) -> (n: usize)
    ensures
        n == if max_concurrency >= 1 {
            max_concurrency
        } else {
            1
        },
{
    if max_concurrency >= 1 {
        max_concurrency
    } else {
        1
    }
}

/// The message refusing a context size above the model's limit.
pub open spec fn context_too_large_text(context_size: u32, max_ctx_len: u32) -> Seq<char> {
    "context_size ("@ + nat_decimal(context_size as nat) + ") exceeds max_ctx_len ("@
        + nat_decimal(max_ctx_len as nat) + ")"@
}

/// Checks the configured context size, taken as a `u32`, against the
/// context length that the model reports.
pub fn check_context_size(context_size: usize, max_ctx_len: u32) -> (r: Result<(), Rknn3Error>)
    ensures
        r is Ok <==> (context_size as u32) <= max_ctx_len,
        r matches Err(Rknn3Error::ModelInitFailed(m)) ==> m@ == context_too_large_text(
            context_size as u32,
            max_ctx_len,
        ),
        r is Err ==> r matches Err(Rknn3Error::ModelInitFailed(_)),
{
    let size: u32 = context_size as u32;
    if size > max_ctx_len {
        let mut m = String::from_str("context_size (");
        push_u64(&mut m, size as u64);
        m.append(") exceeds max_ctx_len (");
        push_u64(&mut m, max_ctx_len as u64);
        m.append(")");
        Err(Rknn3Error::ModelInitFailed(m))
    } else {
        Ok(())
    }
}

/// What an RKNN3 run is started with.
pub struct Rknn3Request {
    /// The prompt's tokens.
    pub tokens: Vec<i32>,
    /// The role the prompt is given.
    pub role: &'static str,
    /// Whether thinking mode is on.
    pub enable_thinking: bool,
    /// The run parameters.
    pub params: InferParams,
}

/// Prepares the run for an inference request: only token input is
/// accepted; the tokens are taken as `i32`, the prompt is the user's, at
/// most `context_size` new tokens are generated and no history is kept.
pub fn rknn3_request(input: LLMInferenceInput, enable_thinking: Option<bool>, context_size: usize) -> (r: Result<Rknn3Request, BackendError>)
    ensures
        match input {
            LLMInferenceInput::Tokens(t) => r matches Ok(q) && q.tokens@.len() == t@.len() && (
            forall|i: int| 0 <= i < t@.len() ==> q.tokens@[i] == t@[i] as i32) && q.role@
                == "user"@ && q.enable_thinking == (enable_thinking == Some(true))
                && q.params.keep_history == false && q.params.max_new_tokens == context_size as i32,
            LLMInferenceInput::Messages(_) => r matches Err(BackendError::UnsupportedInput(m)) && m@
                == "RKNN3 backend only supports token input"@,
        },
{
    match input {
        LLMInferenceInput::Tokens(tokens) => {
            let mut ids: Vec<i32> = Vec::new();
            let mut i: usize = 0;
            while i < tokens.len()
                invariant
                    i <= tokens@.len(),
                    ids@.len() == i,
                    forall|j: int| 0 <= j < i ==> ids@[j] == tokens@[j] as i32,
                decreases tokens@.len() - i,
            {
                ids.push(tokens[i] as i32);
                i = i + 1;
            }
            let thinking = match enable_thinking {
                Some(b) => b,
                None => false,
            };
            let params = InferParams::new().max_new_tokens(context_size as i32).keep_history(false);
            Ok(Rknn3Request { tokens: ids, role: "user", enable_thinking: thinking, params })
        },
        LLMInferenceInput::Messages(_) => Err(
            BackendError::UnsupportedInput(
                String::from_str("RKNN3 backend only supports token input"),
            ),
        ),
    }
}

} // verus!
