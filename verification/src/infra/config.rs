//! Configuration values of the service and their defaults.

use vstd::prelude::*;

verus! {

/// Where the server listens.
#[derive(Debug, Clone)]
pub struct ServerConfig {
    pub host: String,
    pub port: u16,
    pub workers: usize,
}

/// Which backend serves a model.
#[derive(Debug, Clone)]
pub struct BackendConfig {
    /// `llama-cpu`, `llama-cuda`, `rknn3` or `proxy`; empty when unset.
    pub backend_type: String,
    /// Directory of prebuilt native libraries, if any.
    pub lib_dir: Option<String>,
}

impl Default for BackendConfig {
    fn default() -> (c: Self)
        ensures
            c.backend_type@ == Seq::<char>::empty(),
            c.lib_dir is None,
    {
        BackendConfig { backend_type: String::new(), lib_dir: None }
    }
}

impl BackendConfig {
    /// The configured backend type, `None` when it is empty.
    pub fn configured_type(&self) -> (r: Option<&str>)
        ensures
            self.backend_type@.len() == 0 ==> r is None,
            self.backend_type@.len() > 0 ==> (r matches Some(t) && t@ == self.backend_type@),
    {
        let t = self.backend_type.as_str();
        if t.is_empty() {
            None
        } else {
            Some(t)
        }
    }
}

/// The number of server workers when none is configured.
pub fn default_workers() -> (n: usize)
    ensures
        n == 1,
{
    1
}

/// The token limit of an inference when none is configured.
pub fn default_max_tokens() -> (n: usize)
    ensures
        n == 256,
{
    256
}

/// The top-k sampling width when none is configured.
pub fn default_top_k() -> (n: usize)
    ensures
        n == 40,
{
    40
}

} // verus!
