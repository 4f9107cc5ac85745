//! Plain-value types of the RKNN3 runtime bindings: allocation and sync
//! modes, query commands, KV-cache policies, the model's reported LLM
//! configuration, callback states and inference parameters.

use vstd::prelude::*;

verus! {

/// Memory allocation flags for NPU tensor memory.
#[derive(Debug, Clone, Copy, PartialEq, Eq, Structural)]
pub enum MemAllocFlags {
    /// Cacheable memory.
    Cacheable,
    /// Non-cacheable memory.
    NonCacheable,
}

impl Default for MemAllocFlags {
    fn default() -> (f: Self)
        ensures
            f == MemAllocFlags::Cacheable,
    {
        MemAllocFlags::Cacheable
    }
}

/// Direction of a CPU/NPU memory synchronization.
#[derive(Debug, Clone, Copy, PartialEq, Eq, Structural)]
pub enum MemSyncMode {
    /// Host (CPU) to device (NPU).
    ToDevice,
    /// Device (NPU) to host (CPU).
    FromDevice,
    /// Both directions.
    Bidirectional,
}

/// Image formats of image memory.
#[derive(Debug, Clone, Copy, PartialEq, Eq, Structural)]
pub enum ImageFormat {
    Rgb888,
    Bgr888,
    Gray8,
    YCbCr420Sp,
    YCrCb420Sp,
    YCbCr422Sp,
    YCrCb422Sp,
    Unknown,
}

/// Query commands of the runtime.
#[derive(Debug, Clone, Copy, PartialEq, Eq, Structural)]
pub enum QueryCmd {
    InOutNum,
    InputAttr,
    OutputAttr,
    SdkVersion,
    CoreMemSize,
    NativeInputAttr,
    NativeOutputAttr,
    DeviceMemInfo,
    CoreNumber,
    AllocationInfo,
    DynamicShapeConfig,
    DynamicShapeInfo,
    LlmConfig,
    PostProcessInOutNum,
    PostProcessOutputAttr,
    PostProcessDynamicShapeInfo,
}

/// An available NPU device.
#[derive(Debug, Clone)]
pub struct Device {
    pub id: String,
    pub device_type: String,
}

/// KV-cache policy of an LLM session.
#[derive(Debug, Clone, Copy, PartialEq, Eq, Structural)]
pub enum KvCachePolicy {
    Recurrent,
    Normal,
}

impl Default for KvCachePolicy {
    fn default() -> (p: Self)
        ensures
            p == KvCachePolicy::Recurrent,
    {
        KvCachePolicy::Recurrent
    }
}

/// Parameters of the recurrent KV-cache policy.
#[derive(Debug, Clone, Copy)]
pub struct KvCachePolicyParam {
    /// Number of cache entries to keep.
    pub n_keep: i64,
    /// Aligned number of cache entries to keep.
    pub n_keep_aligned: i64,
}

impl KvCachePolicyParam {
    /// Policy parameters with the given counts.
    pub fn new(n_keep: i64, n_keep_aligned: i64) -> (p: Self)
        ensures
            p.n_keep == n_keep,
            p.n_keep_aligned == n_keep_aligned,
    {
        KvCachePolicyParam { n_keep, n_keep_aligned }
    }
}

/// What clearing the KV cache keeps.
#[derive(Debug, Clone, Copy, PartialEq, Eq, Structural)]
pub enum KvCacheClearPolicy {
    All,
    KeepSystemPrompt,
}

impl Default for KvCacheClearPolicy {
    fn default() -> (p: Self)
        ensures
            p == KvCacheClearPolicy::All,
    {
        KvCacheClearPolicy::All
    }
}

/// State of an LLM session's run.
#[derive(Debug, Clone)]
pub struct RunState {
    pub n_total_tokens: u64,
    pub n_max_tokens: u64,
    pub n_decode_tokens: u64,
    pub n_prefill_tokens: u64,
    pub n_loras_enabled: i32,
}

/// Data type of the KV cache, with the runtime's numbering.
#[derive(Debug, Clone, Copy, PartialEq, Eq, Structural)]
pub enum KvCacheDtype {
    Undefined,
    Int4ToF16,
    Int4ToF8,
    Int8ToF16,
    Float4ToF16,
    Float4ToF8,
    Float8ToF16,
    Float8ToF8,
    Float16,
}

impl KvCacheDtype {
    /// The runtime's number for this data type.
    pub open spec fn number(self) -> u32 {
        match self {
            KvCacheDtype::Undefined => 0,
            KvCacheDtype::Int4ToF16 => 1,
            KvCacheDtype::Int4ToF8 => 2,
            KvCacheDtype::Int8ToF16 => 3,
            KvCacheDtype::Float4ToF16 => 4,
            KvCacheDtype::Float4ToF8 => 5,
            KvCacheDtype::Float8ToF16 => 6,
            KvCacheDtype::Float8ToF8 => 7,
            KvCacheDtype::Float16 => 8,
        }
    }

    /// The runtime's number for this data type.
    pub fn code(&self) -> (c: u32)
        ensures
            c == self.number(),
    {
        match self {
            KvCacheDtype::Undefined => 0,
            KvCacheDtype::Int4ToF16 => 1,
            KvCacheDtype::Int4ToF8 => 2,
            KvCacheDtype::Int8ToF16 => 3,
            KvCacheDtype::Float4ToF16 => 4,
            KvCacheDtype::Float4ToF8 => 5,
            KvCacheDtype::Float8ToF16 => 6,
            KvCacheDtype::Float8ToF8 => 7,
            KvCacheDtype::Float16 => 8,
        }
    }

    /// The data type the runtime numbers `c`, if any.
    pub fn from_code(c: u32) -> (r: Option<Self>)
        ensures
            r matches Some(t) ==> t.number() == c,
            r is None <==> c > 8,
    {
        match c {
            0 => Some(KvCacheDtype::Undefined),
            1 => Some(KvCacheDtype::Int4ToF16),
            2 => Some(KvCacheDtype::Int4ToF8),
            3 => Some(KvCacheDtype::Int8ToF16),
            4 => Some(KvCacheDtype::Float4ToF16),
            5 => Some(KvCacheDtype::Float4ToF8),
            6 => Some(KvCacheDtype::Float8ToF16),
            7 => Some(KvCacheDtype::Float8ToF8),
            8 => Some(KvCacheDtype::Float16),
            _ => None,
        }
    }
}

/// How the KV cache is stored, with the runtime's numbering.
#[derive(Debug, Clone, Copy, PartialEq, Eq, Structural)]
pub enum KvCacheStoreMethod {
    Undefined,
    Normal,
    GroupQuant,
}

impl KvCacheStoreMethod {
    /// The runtime's number for this store method.
    pub open spec fn number(self) -> u32 {
        match self {
            KvCacheStoreMethod::Undefined => 0,
            KvCacheStoreMethod::Normal => 1,
            KvCacheStoreMethod::GroupQuant => 2,
        }
    }

    /// The runtime's number for this store method.
    pub fn code(&self) -> (c: u32)
        ensures
            c == self.number(),
    {
        match self {
            KvCacheStoreMethod::Undefined => 0,
            KvCacheStoreMethod::Normal => 1,
            KvCacheStoreMethod::GroupQuant => 2,
        }
    }

    /// The store method the runtime numbers `c`, if any.
    pub fn from_code(c: u32) -> (r: Option<Self>)
        ensures
            r matches Some(t) ==> t.number() == c,
            r is None <==> c > 2,
    {
        match c {
            0 => Some(KvCacheStoreMethod::Undefined),
            1 => Some(KvCacheStoreMethod::Normal),
            2 => Some(KvCacheStoreMethod::GroupQuant),
            _ => None,
        }
    }
}

/// The task an LLM model performs, with the runtime's numbering.
#[derive(Debug, Clone, Copy, PartialEq, Eq, Structural)]
pub enum LlmTaskType {
    Generate,
    Embedding,
}

impl LlmTaskType {
    /// The number the runtime uses for this kind of task.
    pub open spec fn number(self) -> u32 {
        match self {
            LlmTaskType::Generate => 0,
            LlmTaskType::Embedding => 1,
        }
    }

    /// The number the runtime uses for this kind of task.
    pub fn code(&self) -> (c: u32)
        ensures
            c == self.number(),
    {
        match self {
            LlmTaskType::Generate => 0,
            LlmTaskType::Embedding => 1,
        }
    }

    /// The task type the runtime numbers `c`, if any.
    pub fn from_code(c: u32) -> (r: Option<Self>)
        ensures
            r matches Some(t) ==> t.number() == c,
            r is None <==> c > 1,
    {
        match c {
            0 => Some(LlmTaskType::Generate),
            1 => Some(LlmTaskType::Embedding),
            _ => None,
        }
    }
}

/// The LLM configuration a loaded model reports.
#[derive(Debug)]
pub struct LlmConfig {
    pub vocab_size: u32,
    pub embedding_dim: u32,
    pub max_ctx_len: u32,
    pub max_position_embeddings: u32,
    pub kvcache_store_method: KvCacheStoreMethod,
    pub kvcache_dtype: KvCacheDtype,
    pub kvcache_group_size: u32,
    pub kvcache_residual_depth: u32,
    pub model_type: Option<String>,
    pub task_type: LlmTaskType,
}

/// State reported with each result of an LLM run.
#[derive(Debug, Clone, Copy, PartialEq, Eq, Structural)]
pub enum LlmCallState {
    Normal,
    Waiting,
    Finish,
    Stop,
    MaxNewTokensReached,
    Error,
}

/// An error of an LLM callback.
#[derive(Debug, Clone, PartialEq, Eq, Structural)]
pub enum CallbackError {
    TokenizeFailed,
    EmbedFailed,
    InvalidInput,
}

impl CallbackError {
    /// The message of this error.
    pub open spec fn text(&self) -> Seq<char> {
        match self {
            CallbackError::TokenizeFailed => "tokenization failed"@,
            CallbackError::EmbedFailed => "embedding lookup failed"@,
            CallbackError::InvalidInput => "invalid callback input"@,
        }
    }

    /// The message of this error.
    pub fn message(&self) -> (s: String)
        ensures
            s@ == self.text(),
    {
        match self {
            CallbackError::TokenizeFailed => String::from_str("tokenization failed"),
            CallbackError::EmbedFailed => String::from_str("embedding lookup failed"),
            CallbackError::InvalidInput => String::from_str("invalid callback input"),
        }
    }
}

/// Callbacks of an LLM session, for users of the bindings to implement:
/// tokenization, embedding lookup, and the handling of generated tokens.
pub trait LlmCallbacks {
    /// Tokenizes `text` into `buf`, returning the number of tokens written.
    fn tokenize(&self, text: &str, buf: &mut [i32]) -> Result<usize, CallbackError>;

    /// Writes the embeddings of `tokens` into `buf` (f16 bytes).
    fn embed(&self, tokens: &[i32], buf: &mut [u8]) -> Result<(), CallbackError>;

    /// Handles generated tokens.
    fn on_result(&mut self, token_ids: &[i32], state: LlmCallState);
}

/// Parameters of one LLM inference run.
#[derive(Debug)]
pub struct InferParams {
    /// Whether to keep the conversation history in the KV cache.
    pub keep_history: bool,
    /// Maximum number of new tokens to generate.
    pub max_new_tokens: i32,
}

impl Default for InferParams {
    fn default() -> (p: Self)
        ensures
            p.keep_history == false,
            p.max_new_tokens == 512,
    {
        InferParams { keep_history: false, max_new_tokens: 512 }
    }
}

impl InferParams {
    /// The default parameters: no history kept, at most 512 new tokens.
    pub fn new() -> (p: Self)
        ensures
            p.keep_history == false,
            p.max_new_tokens == 512,
    {
        Self::default()
    }

    /// These parameters with history keeping set to `keep`.
    pub fn keep_history(self, keep: bool) -> (p: Self)
        ensures
            p.keep_history == keep,
            p.max_new_tokens == self.max_new_tokens,
    {
        InferParams { keep_history: keep, max_new_tokens: self.max_new_tokens }
    }

    /// These parameters with the new-token limit set to `n`.
    pub fn max_new_tokens(self, n: i32) -> (p: Self)
        ensures
            p.keep_history == self.keep_history,
            p.max_new_tokens == n,
    {
        InferParams { keep_history: self.keep_history, max_new_tokens: n }
    }

    /// The runtime's integer encoding of the history flag.
    pub fn keep_history_flag(&self) -> (f: i32)
        ensures
            f == if self.keep_history {
                1i32
            } else {
                0i32
            },
    {
        if self.keep_history {
            1
        } else {
            0
        }
    }
}

/// How many special token ids an LLM session's parameters hold at most.
pub const MAX_SPECIAL_IDS: usize = 64;

/// Puts the special token ids `ids` (beginning or end of sequence) into the
/// table of an LLM session's parameters: the first `MAX_SPECIAL_IDS` of them
/// go to the front of the table, the rest of the table keeps what it held,
/// and the number of ids taken is returned.
pub fn fill_special_ids(table: &mut Vec<i32>, ids: &[i32]) -> (n: i32)
    requires
        old(table)@.len() == MAX_SPECIAL_IDS,
    ensures
        n == if ids@.len() < MAX_SPECIAL_IDS {
            ids@.len() as int
        } else {
            MAX_SPECIAL_IDS as int
        },
        final(table)@ == ids@.take(n as int) + old(table)@.skip(n as int),
{
    let len: usize = if ids.len() < MAX_SPECIAL_IDS {
        ids.len()
    } else {
        MAX_SPECIAL_IDS
    };
    let mut i: usize = 0;
    while i < len
        invariant
            i <= len,
            len <= ids@.len(),
            len <= MAX_SPECIAL_IDS,
            table@.len() == MAX_SPECIAL_IDS,
            old(table)@.len() == MAX_SPECIAL_IDS,
            table@ == ids@.take(i as int) + old(table)@.skip(i as int),
        decreases len - i,
    {
        table.set(i, ids[i]);
        assert(table@ =~= ids@.take(i + 1) + old(table)@.skip(i + 1));
        i = i + 1;
    }
    len as i32
}

} // verus!
