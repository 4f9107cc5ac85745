//! Health and readiness reports.

use vstd::prelude::*;
use crate::backend::backend::MemoryStats;
use crate::text::{nat_decimal, push_u64};

verus! {

/// The health report.
#[derive(Debug)]
pub struct HealthResponse {
    pub status: String,
    pub backend: String,
    pub model_loaded: bool,
    pub slots_available: usize,
    pub gpu_memory_used_bytes: Option<u64>,
    pub gpu_memory_total_bytes: Option<u64>,
    pub uptime_seconds: u64,
}

/// The readiness report: ready when every check is `ok`.
#[derive(Debug)]
pub struct ReadinessResponse {
    pub ready: bool,
    pub checks: Vec<HealthCheckResult>,
}

/// The result of one readiness check.
#[derive(Debug)]
pub struct HealthCheckResult {
    pub name: String,
    pub status: String,
    pub detail: Option<String>,
}

/// Whether memory use is healthy: no total is known, or use is below it.
pub open spec fn memory_healthy(m: MemoryStats) -> bool {
    m.total_bytes == 0 || m.used_bytes < m.total_bytes
}

/// The detail of the memory check: `{used} / {total} bytes used`.
pub open spec fn memory_detail(m: MemoryStats) -> Seq<char> {
    nat_decimal(m.used_bytes as nat) + " / "@ + nat_decimal(m.total_bytes as nat)
        + " bytes used"@
}

/// The health report of a backend named `backend` that has (or has not)
/// its model loaded, after `uptime_seconds` of service.
pub fn health_response(backend: String, model_loaded: bool, uptime_seconds: u64) -> (r: HealthResponse)
    ensures
        r.status@ == if model_loaded {
            "healthy"@
        } else {
            "unhealthy"@
        },
        r.backend == backend,
        r.model_loaded == model_loaded,
        r.slots_available == 1,
        r.gpu_memory_used_bytes is None,
        r.gpu_memory_total_bytes is None,
        r.uptime_seconds == uptime_seconds,
{
    HealthResponse {
        status: if model_loaded {
            String::from_str("healthy")
        } else {
            String::from_str("unhealthy")
        },
        backend,
        model_loaded,
        slots_available: 1,
        gpu_memory_used_bytes: None,
        gpu_memory_total_bytes: None,
        uptime_seconds,
    }
}

fn check_result(name: &str, status: &str, detail: Option<String>) -> (r: HealthCheckResult)
    ensures
        r.name@ == name@,
        r.status@ == status@,
        r.detail == detail,
{
    HealthCheckResult { name: String::from_str(name), status: String::from_str(status), detail }
}

/// The readiness report from the backend's answers: the model is loaded,
/// the backend responds, and its memory use.  Three checks are reported, in
/// this order; the backend is ready when all three are `ok`.
pub fn readiness_response(model_loaded: bool, backend_ok: bool, memory: MemoryStats) -> (r: ReadinessResponse)
    ensures
        r.checks@.len() == 3,
        r.checks@[0].name@ == "model_loaded"@,
        r.checks@[0].status@ == if model_loaded {
            "ok"@
        } else {
            "error"@
        },
        model_loaded ==> r.checks@[0].detail is None,
        !model_loaded ==> (r.checks@[0].detail matches Some(d) && d@ == "Model not loaded"@),
        r.checks@[1].name@ == "backend_responsive"@,
        r.checks@[1].status@ == if backend_ok {
            "ok"@
        } else {
            "error"@
        },
        r.checks@[1].detail is None,
        r.checks@[2].name@ == "memory_healthy"@,
        r.checks@[2].status@ == if memory_healthy(memory) {
            "ok"@
        } else {
            "warning"@
        },
        r.checks@[2].detail matches Some(d) && d@ == memory_detail(memory),
        r.ready == (model_loaded && backend_ok && memory_healthy(memory)),
        r.checks@[2].status@ == "ok"@ <==> (memory.total_bytes == 0 || memory.used_bytes
            < memory.total_bytes),
        r.ready <==> forall|i: int| 0 <= i < r.checks@.len() ==> #[trigger] r.checks@[i].status@
            == "ok"@,
{
    proof {
        reveal_strlit("ok");
        reveal_strlit("error");
        reveal_strlit("warning");
        assert("error"@.len() != "ok"@.len());
        assert("warning"@.len() != "ok"@.len());
    }
    let mut checks: Vec<HealthCheckResult> = Vec::new();
    let model_check = if model_loaded {
        check_result("model_loaded", "ok", None)
    } else {
        check_result("model_loaded", "error", Some(String::from_str("Model not loaded")))
    };
    checks.push(model_check);
    let backend_check = if backend_ok {
        check_result("backend_responsive", "ok", None)
    } else {
        check_result("backend_responsive", "error", None)
    };
    checks.push(backend_check);
    let memory_ok = memory.total_bytes == 0 || memory.used_bytes < memory.total_bytes;
    let mut detail = String::new();
    push_u64(&mut detail, memory.used_bytes);
    detail.append(" / ");
    push_u64(&mut detail, memory.total_bytes);
    detail.append(" bytes used");
    assert(detail@ =~= memory_detail(memory));
    let memory_check = if memory_ok {
        check_result("memory_healthy", "ok", Some(detail))
    } else {
        check_result("memory_healthy", "warning", Some(detail))
    };
    checks.push(memory_check);
    let ready = model_loaded && backend_ok && memory_ok;
    let r = ReadinessResponse { ready, checks };
    assert(r.ready <==> forall|i: int| 0 <= i < r.checks@.len() ==> #[trigger] r.checks@[i].status@
        == "ok"@) by {
        if !r.ready {
            if !model_loaded {
                assert(r.checks@[0].status@ != "ok"@);
            } else if !backend_ok {
                assert(r.checks@[1].status@ != "ok"@);
            } else {
                assert(r.checks@[2].status@ != "ok"@);
            }
        }
    }
    r
}

/// The memory check passes exactly when no total is known or the bytes in
/// use stay below the total: any use short of the whole memory is healthy,
/// and using all of it (or more) is not.
pub proof fn lemma_memory_healthy_below_total(m: MemoryStats)
    ensures
        m.total_bytes == 0 ==> memory_healthy(m),
        m.total_bytes > 0 && m.used_bytes < m.total_bytes ==> memory_healthy(m),
        m.total_bytes > 0 && m.used_bytes >= m.total_bytes ==> !memory_healthy(m),
{
}

/// Using fewer bytes of the same total never turns a healthy memory check
/// into a warning, and one byte less than the total is still healthy.
pub proof fn lemma_memory_healthy_monotone(a: MemoryStats, b: MemoryStats)
    requires
        a.total_bytes == b.total_bytes,
        a.used_bytes <= b.used_bytes,
    ensures
        memory_healthy(b) ==> memory_healthy(a),
        b.total_bytes > 0 && b.used_bytes + 1 == b.total_bytes ==> memory_healthy(b),
{
}

} // verus!
