use vstd::prelude::*;
use crate::bind::{view_result, BindError};
use crate::handler::{echo_request, echo_spec};
use crate::view::{release_spec, BufferView, ViewModel};

verus! {

/// Status returned to the host when the request was served.
pub const STATUS_OK: i32 = 0;

/// Status returned when a buffer could not be bound.
pub const STATUS_BIND_FAILED: i32 = 1;

/// Status returned when the handler logic failed.
pub const STATUS_HANDLER_FAULT: i32 = 2;

/// Status returned for a request outside the init/end window.
pub const STATUS_NOT_READY: i32 = 3;

/// An entry point of the module as observed by the lifecycle.
#[derive(Clone, Copy, Debug, PartialEq, Eq, Structural)]
pub enum Phase {
    Init,
    Request,
    End,
}

/// Where the module stands between load and unload.
#[derive(Clone, Copy, Debug, PartialEq, Eq, Structural)]
pub enum LifecycleState {
    /// Loaded; init not yet run.
    Loaded,
    /// Init has run; requests are served.
    Running,
    /// End has run; nothing more is served.
    Ended,
}

/// What a request call hands back: the status for the host, the response
/// bytes to send, and the module-owned bytes freed for each buffer.
pub struct RequestOutcome {
    pub status: i32,
    pub response: Vec<u8>,
    pub freed_request: usize,
    pub freed_response: usize,
}

/// Init comes at most once and first, every request comes after it, and end,
/// if present, comes last.
pub open spec fn lifecycle_ordered(h: Seq<Phase>) -> bool {
    &&& forall|i: int| 0 <= i < h.len() && h[i] == Phase::Init ==> i == 0
    &&& forall|i: int| 0 <= i < h.len() && h[i] == Phase::End ==> i == h.len() - 1
    &&& forall|i: int| 0 <= i < h.len() && #[trigger] h[i] == Phase::Request ==> h[0] == Phase::Init
}

/// Module-owned bytes a bind result frees on release.
pub open spec fn owned_len(r: Result<ViewModel, BindError>) -> nat {
    match r {
        Ok(m) => release_spec(m).1,
        Err(_) => 0,
    }
}

/// Status and response of a request served with the given bind results.
pub open spec fn serve_spec(req: Result<ViewModel, BindError>, resp: Result<ViewModel, BindError>) -> (i32, Seq<u8>) {
    match (req, resp) {
        (Ok(q), Ok(p)) => match echo_spec(q, p) {
            Ok(bytes) => (STATUS_OK, bytes),
            Err(_) => (STATUS_HANDLER_FAULT, Seq::empty()),
        },
        _ => (STATUS_BIND_FAILED, Seq::empty()),
    }
}

/// Releases whatever a bind produced and returns the bytes freed.
fn release_bound<'a>(r: Result<BufferView<'a>, BindError>) -> (n: usize)
    ensures
        n as nat == owned_len(view_result(r)),
{
    match r {
        Ok(v) => {
            let mut v = v;
            v.release()
        },
        Err(_) => 0,
    }
}

/// The module's lifecycle, driven by the host through the three entry points.
pub struct Module {
    state: LifecycleState,
    requests: u64,
    history: Ghost<Seq<Phase>>,
}

impl Module {
    pub closed spec fn state_spec(&self) -> LifecycleState {
        self.state
    }

    pub closed spec fn requests_spec(&self) -> u64 {
        self.requests
    }

    /// The entry points observed so far, in order.
    pub closed spec fn history(&self) -> Seq<Phase> {
        self.history@
    }

    pub open spec fn wf(&self) -> bool {
        &&& lifecycle_ordered(self.history())
        &&& match self.state_spec() {
            LifecycleState::Loaded => self.history().len() == 0,
            LifecycleState::Running => self.history().len() > 0 && self.history()[0] == Phase::Init
                && forall|i: int| 0 <= i < self.history().len() ==> self.history()[i] != Phase::End,
            LifecycleState::Ended => self.history().len() > 0
                && self.history()[self.history().len() - 1] == Phase::End,
        }
    }

    pub fn new() -> (r: Module)
        ensures
            r.wf(),
            r.state_spec() == LifecycleState::Loaded,
            r.requests_spec() == 0,
            r.history() == Seq::<Phase>::empty(),
    {
        Module { state: LifecycleState::Loaded, requests: 0, history: Ghost(Seq::empty()) }
    }

    pub fn state(&self) -> (r: LifecycleState)
        ensures
            r == self.state_spec(),
    {
        self.state
    }

    /// Requests served so far, saturating at `u64::MAX`.
    pub fn requests_served(&self) -> (r: u64)
        ensures
            r == self.requests_spec(),
    {
        self.requests
    }

    /// Process-wide setup. Only the first call after load is observed; any
    /// later one, or one after end, changes nothing.
    pub fn luw_module_init_handler(&mut self)
        requires
            old(self).wf(),
        ensures
            final(self).wf(),
            final(self).requests_spec() == old(self).requests_spec(),
            old(self).state_spec() == LifecycleState::Loaded ==> final(self).state_spec()
                == LifecycleState::Running && final(self).history() == old(self).history().push(Phase::Init),
            old(self).state_spec() != LifecycleState::Loaded ==> final(self).state_spec()
                == old(self).state_spec() && final(self).history() == old(self).history(),
    {
        if self.state == LifecycleState::Loaded {
            self.state = LifecycleState::Running;
            self.history = Ghost(self.history@.push(Phase::Init));
        }
    }

    /// Process-wide teardown. Observed once; tolerated whether or not init
    /// ran or requests failed.
    pub fn luw_module_end_handler(&mut self)
        requires
            old(self).wf(),
        ensures
            final(self).wf(),
            final(self).requests_spec() == old(self).requests_spec(),
            final(self).state_spec() == LifecycleState::Ended,
            old(self).state_spec() != LifecycleState::Ended ==> final(self).history()
                == old(self).history().push(Phase::End),
            old(self).state_spec() == LifecycleState::Ended ==> final(self).history() == old(self).history(),
    {
        if self.state != LifecycleState::Ended {
            self.state = LifecycleState::Ended;
            self.history = Ghost(self.history@.push(Phase::End));
        }
    }
    /// Serves one request with the buffers already bound for it: echoes the
    /// request into the response, then releases both views on every path.
    /// Outside the init/end window the request is refused and not observed.
    pub fn luw_request_handler<'a>(
        &mut self,
        request: Result<BufferView<'a>, BindError>,
        response: Result<BufferView<'a>, BindError>,
    ) -> (r: RequestOutcome)
        requires
            old(self).wf(),
        ensures
            final(self).wf(),
            final(self).state_spec() == old(self).state_spec(),
            r.freed_request as nat == owned_len(view_result(request)),
            r.freed_response as nat == owned_len(view_result(response)),
            old(self).state_spec() == LifecycleState::Running ==> {
                &&& final(self).history() == old(self).history().push(Phase::Request)
                &&& final(self).requests_spec() == (if old(self).requests_spec() == u64::MAX {
                    u64::MAX
                } else {
                    (old(self).requests_spec() + 1) as u64
                })
                &&& (r.status, r.response@) == serve_spec(view_result(request), view_result(response))
            },
            old(self).state_spec() != LifecycleState::Running ==> {
                &&& final(self).history() == old(self).history()
                &&& final(self).requests_spec() == old(self).requests_spec()
                &&& r.status == STATUS_NOT_READY
                &&& r.response@ == Seq::<u8>::empty()
            },
    {
        if self.state != LifecycleState::Running {
            let freed_request = release_bound(request);
            let freed_response = release_bound(response);
            return RequestOutcome { status: STATUS_NOT_READY, response: Vec::new(), freed_request, freed_response };
        }
        proof {
            let h = self.history@.push(Phase::Request);
            assert forall|i: int| 0 <= i < h.len() && h[i] == Phase::End implies i == h.len() - 1 by {
                assert(self.history@[i] != Phase::End);
            }
        }
        self.history = Ghost(self.history@.push(Phase::Request));
        if self.requests < u64::MAX {
            self.requests = self.requests + 1;
        }
        match (request, response) {
            (Ok(q), Ok(p)) => {
                let mut q = q;
                let mut p = p;
                let echoed = echo_request(&q, &mut p);
                let (status, out) = match echoed {
                    Ok(()) => (STATUS_OK, p.contents()),
                    Err(_) => (STATUS_HANDLER_FAULT, Vec::new()),
                };
                let freed_request = q.release();
                let freed_response = p.release();
                RequestOutcome { status, response: out, freed_request, freed_response }
            },
            (request, response) => {
                let freed_request = release_bound(request);
                let freed_response = release_bound(response);
                RequestOutcome { status: STATUS_BIND_FAILED, response: Vec::new(), freed_request, freed_response }
            },
        }
    }
}


/// Whatever sequence of calls the host makes, the observed entry points are
/// ordered: init at most once and before every request, and end, if
/// observed, after every request.
pub proof fn lifecycle_order_holds(m: &Module)
    requires
        m.wf(),
    ensures
        forall|i: int, j: int|
            0 <= i < m.history().len() && 0 <= j < m.history().len() && m.history()[i] == Phase::Init
                && m.history()[j] == Phase::Init ==> i == j,
        forall|i: int, j: int|
            0 <= i < m.history().len() && 0 <= j < m.history().len() && m.history()[i] == Phase::Init
                && m.history()[j] == Phase::Request ==> i < j,
        forall|j: int|
            0 <= j < m.history().len() && m.history()[j] == Phase::Request ==> exists|i: int|
                0 <= i < j && m.history()[i] == Phase::Init,
        forall|i: int, j: int|
            0 <= i < m.history().len() && 0 <= j < m.history().len() && m.history()[i] == Phase::End
                && m.history()[j] == Phase::Request ==> j < i,
{
    let h = m.history();
    assert forall|j: int| 0 <= j < h.len() && h[j] == Phase::Request implies exists|i: int|
        0 <= i < j && h[i] == Phase::Init by {
        assert(h[0] == Phase::Init);
    }
}

} // verus!
