use vstd::prelude::*;
use crate::directive::BufferDirective;
use crate::view::{copy_bytes, release_spec, writable, BufferView, ViewKind, ViewModel};

verus! {

/// A borrowed handle on one in-flight request, valid for one lifecycle call.
///
/// It holds the context's address as a plain integer and is neither `Copy`
/// nor `Clone`: the handle cannot be duplicated or kept past the call.
pub struct RequestContext {
    address: usize,
}

impl RequestContext {
    pub closed spec fn address_spec(&self) -> usize {
        self.address
    }

    /// Non-null; the only validity a module can check on its own.
    pub open spec fn valid(&self) -> bool {
        self.address_spec() != 0
    }

    pub fn from_address(address: usize) -> (r: RequestContext)
        ensures
            r.address_spec() == address,
    {
        RequestContext { address }
    }

    pub fn is_valid(&self) -> (r: bool)
        ensures
            r == self.valid(),
    {
        self.address != 0
    }
}

/// Why a buffer could not be bound.
#[derive(Clone, Copy, Debug, PartialEq, Eq, Structural)]
pub enum BindError {
    /// The context handle is null: host and module disagree on the ABI.
    PreconditionViolation,
    /// The native layer answered the transfer with a nonzero status.
    NativeRejected,
}

/// The one native transfer a bind asks for.
#[derive(Clone, Copy, Debug, PartialEq, Eq, Structural)]
pub struct NativeCall {
    pub address: usize,
    pub directive: BufferDirective,
}

impl NativeCall {
    /// The directive's wire code, as handed to the native layer.
    pub fn flag(&self) -> (r: u32)
        ensures
            r == self.directive.flag_spec(),
    {
        self.directive.flag()
    }
}

/// What a bind needs next: nothing at all, or one native transfer.
#[derive(Clone, Copy, Debug, PartialEq, Eq, Structural)]
pub enum BindStep {
    /// The view is empty; the native layer is not involved.
    Empty,
    /// The native layer must be asked for the bytes.
    Transfer(NativeCall),
}

pub open spec fn empty_model() -> ViewModel {
    ViewModel { kind: ViewKind::Empty, bytes: Seq::empty(), released: false }
}

pub open spec fn bind_plan(address: usize, directive: BufferDirective) -> Result<BindStep, BindError> {
    if address == 0 {
        Err(BindError::PreconditionViolation)
    } else if directive == BufferDirective::NoTransfer {
        Ok(BindStep::Empty)
    } else {
        Ok(BindStep::Transfer(NativeCall { address, directive }))
    }
}

/// The view a bind yields once the native layer has answered with `status`
/// and, on success, `payload`.
pub open spec fn bind_outcome(step: BindStep, status: i32, payload: Seq<u8>) -> Result<ViewModel, BindError> {
    match step {
        BindStep::Empty => Ok(empty_model()),
        BindStep::Transfer(call) => if status != 0 {
            Err(BindError::NativeRejected)
        } else {
            match call.directive {
                BufferDirective::NoTransfer => Ok(empty_model()),
                BufferDirective::Copy => Ok(ViewModel { kind: ViewKind::Owned, bytes: payload, released: false }),
                BufferDirective::Reference => Ok(ViewModel { kind: ViewKind::Borrowed, bytes: payload, released: false }),
            }
        },
    }
}

pub open spec fn view_result<'a>(r: Result<BufferView<'a>, BindError>) -> Result<ViewModel, BindError> {
    match r {
        Ok(v) => Ok(v@),
        Err(e) => Err(e),
    }
}

/// First half of binding the request buffer: checks the handle and decides
/// whether the native layer is involved. A `NoTransfer` directive never
/// reaches the byte-transfer path, and a null handle reaches nothing.
pub fn bind_request_buffer(ctx: &RequestContext, directive: BufferDirective) -> (r: Result<BindStep, BindError>)
    ensures
        r == bind_plan(ctx.address_spec(), directive),
        directive == BufferDirective::NoTransfer ==> !(r matches Ok(BindStep::Transfer(_))),
        !ctx.valid() ==> r == Err::<BindStep, BindError>(BindError::PreconditionViolation),
{
    if !ctx.is_valid() {
        return Err(BindError::PreconditionViolation);
    }
    match directive {
        BufferDirective::NoTransfer => Ok(BindStep::Empty),
        _ => Ok(BindStep::Transfer(NativeCall { address: ctx.address, directive })),
    }
}

/// Second half: turns the native layer's answer into a view. A copy is
/// module-owned and writable; a reference borrows `payload` and so cannot
/// outlive it.
pub fn complete_bind<'a>(step: &BindStep, status: i32, payload: &'a [u8]) -> (r: Result<BufferView<'a>, BindError>)
    ensures
        view_result(r) == bind_outcome(*step, status, payload@),
{
    match step {
        BindStep::Empty => Ok(BufferView::empty()),
        BindStep::Transfer(call) => {
            if status != 0 {
                return Err(BindError::NativeRejected);
            }
            match call.directive {
                BufferDirective::NoTransfer => Ok(BufferView::empty()),
                BufferDirective::Copy => Ok(BufferView::owned(copy_bytes(payload))),
                BufferDirective::Reference => Ok(BufferView::borrowed(payload)),
            }
        },
    }
}


/// With a valid context a `NoTransfer` bind never reaches the native layer,
/// and whatever the native layer might say, the view is empty.
pub proof fn no_transfer_binds_empty(address: usize, status: i32, payload: Seq<u8>)
    requires
        address != 0,
    ensures
        bind_plan(address, BufferDirective::NoTransfer) == Ok::<BindStep, BindError>(BindStep::Empty),
        bind_outcome(BindStep::Empty, status, payload) == Ok::<ViewModel, BindError>(empty_model()),
{
}

/// A successful `Copy` bind yields a writable view over exactly the payload;
/// its release frees exactly that many bytes, and a second release frees
/// nothing.
pub proof fn copy_bind_release_cycle(address: usize, payload: Seq<u8>)
    requires
        address != 0,
    ensures
        bind_plan(address, BufferDirective::Copy) matches Ok(BindStep::Transfer(call))
            && bind_outcome(BindStep::Transfer(call), 0, payload) matches Ok(m)
            && writable(m)
            && m.bytes == payload
            && release_spec(m).1 == payload.len()
            && !writable(release_spec(m).0)
            && release_spec(release_spec(m).0).1 == 0,
{
}

/// A successful `Reference` bind yields a view over the host's bytes that is
/// not writable, before or after release, and frees nothing.
pub proof fn reference_bind_is_read_only(address: usize, payload: Seq<u8>)
    requires
        address != 0,
    ensures
        bind_plan(address, BufferDirective::Reference) matches Ok(BindStep::Transfer(call))
            && bind_outcome(BindStep::Transfer(call), 0, payload) matches Ok(m)
            && m.kind == ViewKind::Borrowed
            && !writable(m)
            && m.bytes == payload
            && !writable(release_spec(m).0)
            && release_spec(m).1 == 0,
{
}

} // verus!
