//! Backend kinds, resource records and the reasons a generation ends.

use vstd::prelude::*;
use crate::text::str_eq;

verus! {

/// The kinds of inference backend.
#[derive(Debug, Clone, Copy, PartialEq, Eq, Structural)]
pub enum BackendType {
    /// llama.cpp on the CPU.
    LlamaCpu,
    /// llama.cpp on a CUDA GPU.
    LlamaCuda,
    /// The RKNN3 NPU runtime.
    Rknn3,
    /// A remote proxy.
    Proxy,
}

/// What `str::to_lowercase` returns for a string with the given characters.
pub uninterp spec fn lowercase(s: Seq<char>) -> Seq<char>;

/// Calls `str::to_lowercase`: the lowercase equivalent of `s` as a new string,
/// by Unicode's definition of lowercase.  Nothing more than the naming is
/// claimed: the result depends on `s` alone.
#[verifier::external_body]
fn to_lowercase(s: &str) -> (r: String)
    ensures
        r@ == lowercase(s@),
{
    s.to_lowercase()
}

/// The backend that an already lowercased name selects.
pub open spec fn backend_named(s: Seq<char>) -> Option<BackendType> {
    if s == "llama-cpu"@ || s == "cpu"@ {
        Some(BackendType::LlamaCpu)
    } else if s == "llama-cuda"@ || s == "cuda"@ {
        Some(BackendType::LlamaCuda)
    } else if s == "rknn3"@ || s == "rknn"@ {
        Some(BackendType::Rknn3)
    } else if s == "proxy"@ {
        Some(BackendType::Proxy)
    } else {
        None
    }
}

impl Default for BackendType {
    fn default() -> (t: Self)
        ensures
            t == BackendType::LlamaCpu,
    {
        BackendType::LlamaCpu
    }
}

impl BackendType {
    /// The canonical name of the backend kind.
    pub open spec fn name(self) -> Seq<char> {
        match self {
            BackendType::LlamaCpu => "llama-cpu"@,
            BackendType::LlamaCuda => "llama-cuda"@,
            BackendType::Rknn3 => "rknn3"@,
            BackendType::Proxy => "proxy"@,
        }
    }

    /// Parses a backend name, ignoring case: `llama-cpu`/`cpu`,
    /// `llama-cuda`/`cuda`, `rknn3`/`rknn` or `proxy`.
    pub fn from_str(s: &str) -> (r: Option<Self>)
        ensures
            r == backend_named(lowercase(s@)),
    {
        let lower = to_lowercase(s);
        Self::from_lowercase(lower.as_str())
    }

    /// Parses a backend name that is already in lowercase.
    pub fn from_lowercase(s: &str) -> (r: Option<Self>)
        ensures
            r == backend_named(s@),
            s@ == "cpu"@ || s@ == "llama-cpu"@ ==> r == Some(BackendType::LlamaCpu),
            s@ == "cuda"@ || s@ == "llama-cuda"@ ==> r == Some(BackendType::LlamaCuda),
            s@ == "rknn"@ || s@ == "rknn3"@ ==> r == Some(BackendType::Rknn3),
            s@ == "proxy"@ ==> r == Some(BackendType::Proxy),
    {
        proof {
            lemma_aliases();
            lemma_name_round_trip(BackendType::Proxy);
        }
        if str_eq(s, "llama-cpu") || str_eq(s, "cpu") {
            Some(BackendType::LlamaCpu)
        } else if str_eq(s, "llama-cuda") || str_eq(s, "cuda") {
            Some(BackendType::LlamaCuda)
        } else if str_eq(s, "rknn3") || str_eq(s, "rknn") {
            Some(BackendType::Rknn3)
        } else if str_eq(s, "proxy") {
            Some(BackendType::Proxy)
        } else {
            None
        }
    }

    /// The canonical name of the backend kind.
    pub fn as_str(&self) -> (s: &'static str)
        ensures
            s@ == self.name(),
    {
        match self {
            BackendType::LlamaCpu => "llama-cpu",
            BackendType::LlamaCuda => "llama-cuda",
            BackendType::Rknn3 => "rknn3",
            BackendType::Proxy => "proxy",
        }
    }
}

/// Every kind but the proxy also answers to a short alias, which selects
/// the same kind as its canonical name: `cpu` and `llama-cpu`, `cuda` and
/// `llama-cuda`, `rknn` and `rknn3`.
pub proof fn lemma_aliases()
    ensures
        backend_named("cpu"@) == Some(BackendType::LlamaCpu),
        backend_named("cuda"@) == Some(BackendType::LlamaCuda),
        backend_named("rknn"@) == Some(BackendType::Rknn3),
        backend_named("cpu"@) == backend_named(BackendType::LlamaCpu.name()),
        backend_named("cuda"@) == backend_named(BackendType::LlamaCuda.name()),
        backend_named("rknn"@) == backend_named(BackendType::Rknn3.name()),
{
    reveal_strlit("llama-cpu");
    reveal_strlit("cpu");
    reveal_strlit("llama-cuda");
    reveal_strlit("cuda");
    reveal_strlit("rknn3");
    reveal_strlit("rknn");
    assert("cuda"@ != "cpu"@) by {
        assert("cuda"@.len() != "cpu"@.len());
    }
    assert("cuda"@ != "llama-cpu"@) by {
        assert("cuda"@.len() != "llama-cpu"@.len());
    }
    assert("rknn"@.len() == 4 && "cpu"@.len() == 3 && "llama-cpu"@.len() == 9);
    assert("llama-cuda"@.len() == 10);
    assert("rknn"@ != "cpu"@ && "rknn"@ != "llama-cpu"@ && "rknn"@ != "llama-cuda"@);
    assert("rknn"@ != "cuda"@) by {
        assert("rknn"@[0] != "cuda"@[0]);
    }
    lemma_name_round_trip(BackendType::LlamaCpu);
    lemma_name_round_trip(BackendType::LlamaCuda);
    lemma_name_round_trip(BackendType::Rknn3);
}

/// The canonical name of every backend kind parses back to that kind.
pub proof fn lemma_name_round_trip(t: BackendType)
    ensures
        backend_named(t.name()) == Some(t),
{
    reveal_strlit("llama-cpu");
    reveal_strlit("cpu");
    reveal_strlit("llama-cuda");
    reveal_strlit("cuda");
    reveal_strlit("rknn3");
    reveal_strlit("rknn");
    reveal_strlit("proxy");
    assert("llama-cuda"@ != "llama-cpu"@) by {
        assert("llama-cuda"@[7] != "llama-cpu"@[7]);
    }
    assert("proxy"@ != "rknn3"@) by {
        assert("proxy"@[0] != "rknn3"@[0]);
    }
    assert("llama-cpu"@.len() == 9 && "cpu"@.len() == 3 && "llama-cuda"@.len() == 10);
    assert("cuda"@.len() == 4 && "rknn3"@.len() == 5 && "rknn"@.len() == 4);
    assert("proxy"@.len() == 5);
    assert("llama-cuda"@ != "cpu"@ && "rknn3"@ != "cpu"@ && "rknn3"@ != "llama-cpu"@);
    assert("rknn3"@ != "llama-cuda"@ && "rknn3"@ != "cuda"@);
    assert("proxy"@ != "cpu"@ && "proxy"@ != "llama-cpu"@ && "proxy"@ != "llama-cuda"@);
    assert("proxy"@ != "cuda"@ && "proxy"@ != "rknn"@);
    assert(backend_named("llama-cpu"@) == Some(BackendType::LlamaCpu));
    assert(backend_named("llama-cuda"@) == Some(BackendType::LlamaCuda));
    assert(backend_named("rknn3"@) == Some(BackendType::Rknn3));
    assert(backend_named("proxy"@) == Some(BackendType::Proxy));
}

/// Use of one resource: how much is used out of the total.
#[derive(Debug, Clone)]
pub struct ResourceType {
    pub name: String,
    pub used: u64,
    pub total: u64,
}

/// Why a generation ended.
#[derive(Debug, Clone, Copy, PartialEq, Eq, Structural)]
pub enum FinishReason {
    /// End of sequence reached.
    Stop,
    /// The token limit was reached.
    Length,
    /// A stop sequence was produced.
    StopSequence,
    /// The model ended the generation.
    ModelEnd,
    /// An error ended it.
    Error,
}

} // verus!
