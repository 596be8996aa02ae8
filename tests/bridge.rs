use unit_wasm_bridge::bind::{bind_request_buffer, complete_bind, BindError, BindStep, NativeCall, RequestContext};
use unit_wasm_bridge::directive::{BufferDirective, FLAG_COPY, FLAG_NONE, FLAG_REFERENCE};
use unit_wasm_bridge::handler::{echo_request, HandlerFault};
use unit_wasm_bridge::lifecycle::{
    LifecycleState, Module, STATUS_BIND_FAILED, STATUS_HANDLER_FAULT, STATUS_NOT_READY, STATUS_OK,
};
use unit_wasm_bridge::view::{copy_bytes, BufferView, ViewError, ViewKind};

fn running_module() -> Module {
    let mut m = Module::new();
    m.luw_module_init_handler();
    m
}

#[test]
fn directive_flags_round_trip() {
    for d in [BufferDirective::NoTransfer, BufferDirective::Copy, BufferDirective::Reference] {
        assert_eq!(BufferDirective::from_flag(d.flag()), Some(d));
    }
    assert_eq!(BufferDirective::NoTransfer.flag(), FLAG_NONE);
    assert_eq!(BufferDirective::Copy.flag(), FLAG_COPY);
    assert_eq!(BufferDirective::Reference.flag(), FLAG_REFERENCE);
    assert_eq!(BufferDirective::from_flag(7), None);
}

#[test]
fn no_transfer_bind_yields_empty_view_without_native_call() {
    let ctx = RequestContext::from_address(0x1000);
    let step = bind_request_buffer(&ctx, BufferDirective::NoTransfer).unwrap();
    assert_eq!(step, BindStep::Empty);
    // Whatever the native layer might have said, an empty step stays empty.
    let junk = [1u8, 2, 3];
    let view = complete_bind(&step, 5, &junk).unwrap();
    assert_eq!(view.kind(), ViewKind::Empty);
    assert_eq!(view.len(), 0);
}

#[test]
fn transfer_directives_ask_native_layer() {
    let ctx = RequestContext::from_address(0x2000);
    let step = bind_request_buffer(&ctx, BufferDirective::Copy).unwrap();
    let call = NativeCall { address: 0x2000, directive: BufferDirective::Copy };
    assert_eq!(step, BindStep::Transfer(call));
    assert_eq!(call.flag(), FLAG_COPY);
    let step = bind_request_buffer(&ctx, BufferDirective::Reference).unwrap();
    match step {
        BindStep::Transfer(c) => assert_eq!(c.flag(), FLAG_REFERENCE),
        BindStep::Empty => panic!("reference bind must reach the native layer"),
    }
}

#[test]
fn null_context_is_precondition_violation() {
    let ctx = RequestContext::from_address(0);
    assert!(!ctx.is_valid());
    for d in [BufferDirective::NoTransfer, BufferDirective::Copy, BufferDirective::Reference] {
        assert_eq!(bind_request_buffer(&ctx, d), Err(BindError::PreconditionViolation));
    }
}

#[test]
fn copy_view_is_writable_and_release_frees_it_once() {
    let ctx = RequestContext::from_address(0x3000);
    let step = bind_request_buffer(&ctx, BufferDirective::Copy).unwrap();
    let payload = [9u8, 8, 7, 6];
    let mut view = complete_bind(&step, 0, &payload).unwrap();
    assert_eq!(view.kind(), ViewKind::Owned);
    assert!(view.is_writable());
    assert_eq!(view.write_at(1, 42), Ok(()));
    assert_eq!(view.contents(), vec![9, 42, 7, 6]);
    assert_eq!(payload, [9, 8, 7, 6]);
    assert_eq!(view.write_at(4, 1), Err(ViewError::OutOfBounds));
    assert_eq!(view.release(), 4);
    assert!(view.is_released());
    assert!(!view.is_writable());
    assert_eq!(view.release(), 0);
    assert_eq!(view.write_at(0, 1), Err(ViewError::Released));
    assert_eq!(view.read_at(0), None);
    assert!(view.contents().is_empty());
}

#[test]
fn repeated_copy_bind_release_cycles_free_each_allocation_once() {
    let ctx = RequestContext::from_address(0x3100);
    let payload = [1u8, 2, 3, 4, 5];
    let mut total: usize = 0;
    for _ in 0..3 {
        let step = bind_request_buffer(&ctx, BufferDirective::Copy).unwrap();
        let mut view = complete_bind(&step, 0, &payload).unwrap();
        total += view.release();
        total += view.release();
    }
    assert_eq!(total, 15);
}

#[test]
fn reference_view_rejects_writes() {
    let ctx = RequestContext::from_address(0x4000);
    let step = bind_request_buffer(&ctx, BufferDirective::Reference).unwrap();
    let host = [10u8, 20, 30];
    let mut view = complete_bind(&step, 0, &host).unwrap();
    assert_eq!(view.kind(), ViewKind::Borrowed);
    assert!(!view.is_writable());
    assert_eq!(view.read_at(2), Some(30));
    assert_eq!(view.write_at(0, 1), Err(ViewError::ReadOnly));
    assert_eq!(view.contents(), vec![10, 20, 30]);
    assert_eq!(view.release(), 0);
    assert_eq!(view.read_at(0), None);
}

#[test]
fn release_twice_is_a_no_op() {
    let mut v = BufferView::owned(vec![1, 2]);
    assert_eq!(v.release(), 2);
    assert_eq!(v.release(), 0);
    assert!(v.is_released());
    let mut e = BufferView::empty();
    assert_eq!(e.release(), 0);
    assert_eq!(e.release(), 0);
    assert_eq!(e.write_at(0, 1), Err(ViewError::Released));
}

#[test]
fn native_rejection_is_bind_error() {
    let ctx = RequestContext::from_address(0x5000);
    let step = bind_request_buffer(&ctx, BufferDirective::Reference).unwrap();
    let r = complete_bind(&step, -1, &[]);
    assert!(matches!(r, Err(BindError::NativeRejected)));
}

#[test]
fn request_with_no_transfer_returns_ok() {
    let mut m = running_module();
    let ctx = RequestContext::from_address(0x6000);
    let step = bind_request_buffer(&ctx, BufferDirective::NoTransfer).unwrap();
    let request = complete_bind(&step, 0, &[]);
    let response = complete_bind(&step, 0, &[]);
    let out = m.luw_request_handler(request, response);
    assert_eq!(out.status, STATUS_OK);
    assert!(out.response.is_empty());
    assert_eq!(out.freed_request, 0);
    assert_eq!(out.freed_response, 0);
    assert_eq!(m.requests_served(), 1);
}

#[test]
fn request_with_copy_echoes_ten_bytes() {
    let mut m = running_module();
    let ctx = RequestContext::from_address(0x7000);
    let step = bind_request_buffer(&ctx, BufferDirective::Copy).unwrap();
    let body: Vec<u8> = (0u8..10).collect();
    let request = complete_bind(&step, 0, &body);
    assert_eq!(request.as_ref().unwrap().len(), 10);
    assert!(request.as_ref().unwrap().is_writable());
    let response_space = [0xffu8; 12];
    let response = complete_bind(&step, 0, &response_space);
    let out = m.luw_request_handler(request, response);
    assert_eq!(out.status, STATUS_OK);
    assert_eq!(out.response, vec![0, 1, 2, 3, 4, 5, 6, 7, 8, 9, 0xff, 0xff]);
    assert_eq!(out.freed_request, 10);
    assert_eq!(out.freed_response, 12);
}

#[test]
fn rejected_reference_bind_gives_nonzero_status() {
    let mut m = running_module();
    let ctx = RequestContext::from_address(0x8000);
    let step = bind_request_buffer(&ctx, BufferDirective::Reference).unwrap();
    let request = complete_bind(&step, 1, &[]);
    assert!(matches!(request, Err(BindError::NativeRejected)));
    let response = Ok(BufferView::owned(vec![0; 4]));
    let out = m.luw_request_handler(request, response);
    assert_eq!(out.status, STATUS_BIND_FAILED);
    assert_ne!(out.status, 0);
    assert!(out.response.is_empty());
    assert_eq!(out.freed_request, 0);
    assert_eq!(out.freed_response, 4);
}

#[test]
fn echo_faults() {
    let request = BufferView::owned(vec![1, 2, 3]);
    let mut small = BufferView::owned(vec![0, 0]);
    assert_eq!(echo_request(&request, &mut small), Err(HandlerFault::ResponseTooSmall));
    assert_eq!(small.contents(), vec![0, 0]);
    let host = [5u8, 5, 5, 5];
    let mut read_only = BufferView::borrowed(&host);
    assert_eq!(echo_request(&request, &mut read_only), Err(HandlerFault::ResponseReadOnly));
    let mut none = BufferView::empty();
    assert_eq!(echo_request(&request, &mut none), Err(HandlerFault::NoResponseBuffer));
    let mut released = BufferView::owned(vec![0; 3]);
    released.release();
    assert_eq!(echo_request(&request, &mut released), Err(HandlerFault::Released));
    let mut fits = BufferView::owned(vec![0; 3]);
    assert_eq!(echo_request(&request, &mut fits), Ok(()));
    assert_eq!(fits.contents(), vec![1, 2, 3]);
}

#[test]
fn handler_fault_gives_nonzero_status_and_releases_views() {
    let mut m = running_module();
    let request = Ok(BufferView::owned(vec![1, 2, 3]));
    let response = Ok(BufferView::owned(vec![0]));
    let out = m.luw_request_handler(request, response);
    assert_eq!(out.status, STATUS_HANDLER_FAULT);
    assert!(out.response.is_empty());
    assert_eq!(out.freed_request, 3);
    assert_eq!(out.freed_response, 1);
}

#[test]
fn lifecycle_order_is_enforced() {
    let mut m = Module::new();
    assert_eq!(m.state(), LifecycleState::Loaded);
    let early = m.luw_request_handler(Ok(BufferView::owned(vec![1])), Ok(BufferView::empty()));
    assert_eq!(early.status, STATUS_NOT_READY);
    assert_eq!(early.freed_request, 1);
    assert_eq!(m.requests_served(), 0);
    m.luw_module_init_handler();
    assert_eq!(m.state(), LifecycleState::Running);
    m.luw_module_init_handler();
    assert_eq!(m.state(), LifecycleState::Running);
    let out = m.luw_request_handler(Ok(BufferView::empty()), Ok(BufferView::empty()));
    assert_eq!(out.status, STATUS_OK);
    assert_eq!(m.requests_served(), 1);
    m.luw_module_end_handler();
    assert_eq!(m.state(), LifecycleState::Ended);
    let late = m.luw_request_handler(Ok(BufferView::empty()), Ok(BufferView::empty()));
    assert_eq!(late.status, STATUS_NOT_READY);
    assert_eq!(m.requests_served(), 1);
    m.luw_module_init_handler();
    m.luw_module_end_handler();
    assert_eq!(m.state(), LifecycleState::Ended);
}

#[test]
fn end_without_init_is_tolerated() {
    let mut m = Module::new();
    m.luw_module_end_handler();
    assert_eq!(m.state(), LifecycleState::Ended);
    let out = m.luw_request_handler(Err(BindError::NativeRejected), Ok(BufferView::empty()));
    assert_eq!(out.status, STATUS_NOT_READY);
}

#[test]
fn copy_bytes_copies_exactly() {
    assert_eq!(copy_bytes(&[3, 1, 4, 1, 5]), vec![3, 1, 4, 1, 5]);
    assert!(copy_bytes(&[]).is_empty());
}
