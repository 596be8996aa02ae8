use vstd::prelude::*;
use crate::view::{BufferView, ViewKind, ViewModel};

verus! {

/// Why the handler logic could not produce a response.
#[derive(Clone, Copy, Debug, PartialEq, Eq, Structural)]
pub enum HandlerFault {
    /// One of the views was already released.
    Released,
    /// No response buffer was materialised.
    NoResponseBuffer,
    /// The response buffer lies in host memory and is read-only.
    ResponseReadOnly,
    /// The response buffer is shorter than the request.
    ResponseTooSmall,
}

/// The response bytes after echoing `req` into `resp`: the request's bytes
/// followed by whatever the response held past them.
pub open spec fn echo_spec(req: ViewModel, resp: ViewModel) -> Result<Seq<u8>, HandlerFault> {
    if req.released || resp.released {
        Err(HandlerFault::Released)
    } else if req.bytes.len() == 0 {
        Ok(resp.bytes)
    } else if resp.kind == ViewKind::Empty {
        Err(HandlerFault::NoResponseBuffer)
    } else if resp.kind == ViewKind::Borrowed {
        Err(HandlerFault::ResponseReadOnly)
    } else if resp.bytes.len() < req.bytes.len() {
        Err(HandlerFault::ResponseTooSmall)
    } else {
        Ok(req.bytes + resp.bytes.subrange(req.bytes.len() as int, resp.bytes.len() as int))
    }
}

/// Handler logic: copies the request's bytes to the front of the response.
/// On a fault the response is left as it was.
pub fn echo_request(request: &BufferView, response: &mut BufferView) -> (r: Result<(), HandlerFault>)
    ensures
        match echo_spec(request@, old(response)@) {
            Ok(bytes) => r is Ok && final(response)@ == (ViewModel { bytes, ..old(response)@ }),
            Err(e) => r == Err::<(), HandlerFault>(e) && final(response)@ == old(response)@,
        },
{
    if request.is_released() || response.is_released() {
        return Err(HandlerFault::Released);
    }
    let n = request.len();
    if n == 0 {
        return Ok(());
    }
    match response.kind() {
        ViewKind::Empty => return Err(HandlerFault::NoResponseBuffer),
        ViewKind::Borrowed => return Err(HandlerFault::ResponseReadOnly),
        ViewKind::Owned => {},
    }
    if response.len() < n {
        return Err(HandlerFault::ResponseTooSmall);
    }
    let ghost start = response@;
    let mut i: usize = 0;
    while i < n
        invariant
            n == request@.bytes.len(),
            !request@.released,
            n <= start.bytes.len(),
            i <= n,
            response@.kind == ViewKind::Owned,
            !response@.released,
            response@.bytes.len() == start.bytes.len(),
            response@ == (ViewModel { bytes: response@.bytes, ..start }),
            forall|k: int| 0 <= k < i ==> response@.bytes[k] == request@.bytes[k],
            forall|k: int| i <= k < start.bytes.len() ==> response@.bytes[k] == start.bytes[k],
        decreases n - i,
    {
        let byte = match request.read_at(i) {
            Some(b) => b,
            None => 0,
        };
        let _ = response.write_at(i, byte);
        i = i + 1;
    }
    assert(response@.bytes =~= request@.bytes + start.bytes.subrange(n as int, start.bytes.len() as int));
    Ok(())
}

} // verus!
