//! The traffic-control state of one interface, as the kernel keeps it, and
//! the laws that the operations of [`TcHook`] obey against it.
//!
//! Each `*_round` spec function is one full operation: the request that the
//! hook makes, the kernel's reply to it, and the hook's decision on that
//! reply.  The kernel's replies follow its error conventions: an existing
//! container or filter is "exists", a missing filter is "not found", and a
//! filter or a destroy under a missing container is "invalid argument".
use vstd::prelude::*;
use crate::errno::{spec_eexist, spec_einval, spec_enoent};
use crate::hook::{
    parent_of, Error, TcHook, BPF_TC_F_REPLACE, EGRESS, INGRESS, TC_H_CLSACT,
    TC_H_MIN_EGRESS, TC_H_MIN_INGRESS,
};
use crate::ops::{
    attach_result, cleared, create_result, destroy_result, detach_result, filter_address_ok,
    filter_request, is_combined, lookup_opts, qdisc_address_ok, query_result, FilterInfo,
};

verus! {

/// Whether the clsact container exists on the interface, and the program
/// bound at each filter key (anchor, handle, priority).
pub struct TcState {
    pub qdisc: bool,
    pub filters: Map<(u32, u32, u32), u32>,
}

/// The parent under which the kernel files the hook's filter.
pub open spec fn anchor(h: TcHook) -> u32 {
    if h.attach_point == INGRESS {
        parent_of(TC_H_CLSACT, TC_H_MIN_INGRESS)
    } else if h.attach_point == EGRESS {
        parent_of(TC_H_CLSACT, TC_H_MIN_EGRESS)
    } else {
        h.parent
    }
}

/// The key that names the hook's filter among its siblings.
pub open spec fn key(h: TcHook) -> (u32, u32, u32) {
    (anchor(h), h.handle, h.priority)
}

/// A state that the kernel can be in: without a container there are no
/// filters.
pub open spec fn state_ok(s: TcState) -> bool {
    !s.qdisc ==> s.filters == Map::<(u32, u32, u32), u32>::empty()
}

/// A state without a container, and so without filters.
pub open spec fn empty_state() -> TcState {
    TcState { qdisc: false, filters: Map::empty() }
}

/// The kernel's reply to creating the container, and the state after it.
pub open spec fn kernel_create(s: TcState) -> (i32, TcState) {
    if s.qdisc {
        ((-spec_eexist()) as i32, s)
    } else {
        (0, TcState { qdisc: true, ..s })
    }
}

/// The kernel's reply to attaching program `id` with the records `req`: the
/// return value, the error number, the filter reported, and the state after.
pub open spec fn kernel_attach(s: TcState, req: TcHook, id: u32) -> (i32, i32, FilterInfo, TcState) {
    let info = FilterInfo { prog_id: id, handle: req.handle, priority: req.priority };
    if !s.qdisc || (req.flags != 0 && req.flags != BPF_TC_F_REPLACE) {
        ((-spec_einval()) as i32, spec_einval(), info, s)
    } else if s.filters.contains_key(key(req)) && req.flags == 0 {
        ((-spec_eexist()) as i32, spec_eexist(), info, s)
    } else {
        (0, 0, info, TcState { filters: s.filters.insert(key(req), id), ..s })
    }
}

/// The kernel's reply to a query with the records `req`.
pub open spec fn kernel_query(s: TcState, req: TcHook) -> (i32, i32, FilterInfo) {
    if s.filters.contains_key(key(req)) {
        (0, 0, FilterInfo { prog_id: s.filters[key(req)], handle: req.handle, priority: req.priority })
    } else {
        ((-spec_enoent()) as i32, spec_enoent(), FilterInfo { prog_id: 0, handle: 0, priority: 0 })
    }
}

/// The kernel's reply to a detach with the records `req`, and the state after.
pub open spec fn kernel_detach(s: TcState, req: TcHook) -> (i32, TcState) {
    if s.filters.contains_key(key(req)) {
        (0, TcState { filters: s.filters.remove(key(req)), ..s })
    } else {
        ((-spec_enoent()) as i32, s)
    }
}

/// The kernel's reply to destroying with the hook record `req`: the whole
/// container for both attach points, else every filter at the one point.
pub open spec fn kernel_destroy(s: TcState, req: TcHook) -> (i32, TcState) {
    if !s.qdisc {
        ((-spec_einval()) as i32, s)
    } else if is_combined(req.attach_point) {
        (0, empty_state())
    } else {
        (
            0,
            TcState {
                filters: Map::new(
                    |k: (u32, u32, u32)| s.filters.contains_key(k) && k.0 != anchor(req),
                    |k: (u32, u32, u32)| s.filters[k],
                ),
                ..s
            },
        )
    }
}

/// A create by a hook that is not `CUSTOM`: the state after and the result.
pub open spec fn create_round(h: TcHook, s: TcState) -> (TcState, Result<TcHook, Error>) {
    if qdisc_address_ok(h) {
        let (ret, s1) = kernel_create(s);
        (s1, create_result(h, ret))
    } else {
        (s, Err(Error::System((-spec_einval()) as i32)))
    }
}

/// An attach of program `id`: the hook after, the state after, the result.
pub open spec fn attach_round(h: TcHook, s: TcState, id: u32) -> (TcHook, TcState, Result<TcHook, Error>) {
    match filter_request(h, cleared(h), spec_einval()) {
        Ok(req) => {
            let (ret, err_no, info, s1) = kernel_attach(s, req, id);
            let (h1, r) = attach_result(cleared(h), ret, err_no, info);
            (h1, s1, r)
        },
        Err(e) => (cleared(h), s, Err(e)),
    }
}

/// `n` attaches of program `id` in a row: the hook after, the state after,
/// and whether every one succeeded.
pub open spec fn attach_rounds(h: TcHook, s: TcState, id: u32, n: nat) -> (TcHook, TcState, bool)
    decreases n,
{
    if n == 0 {
        (h, s, true)
    } else {
        let (h1, s1, r) = attach_round(h, s, id);
        let (h2, s2, ok) = attach_rounds(h1, s1, id, (n - 1) as nat);
        (h2, s2, r is Ok && ok)
    }
}

/// A query: its result.
pub open spec fn query_round(h: TcHook, s: TcState) -> Result<u32, Error> {
    match filter_request(h, lookup_opts(h), spec_einval()) {
        Ok(req) => {
            let (ret, err_no, info) = kernel_query(s, req);
            query_result(ret, err_no, info)
        },
        Err(e) => Err(e),
    }
}

/// A detach: the hook after, the state after, the result.
pub open spec fn detach_round(h: TcHook, s: TcState) -> (TcHook, TcState, Result<(), Error>) {
    match filter_request(h, lookup_opts(h), (-spec_einval()) as i32) {
        Ok(req) => {
            let (ret, s1) = kernel_detach(s, req);
            let (h1, r) = detach_result(h, ret);
            (h1, s1, r)
        },
        Err(e) => (h, s, Err(e)),
    }
}

/// A destroy by a hook that is not `CUSTOM`: the state after and the result.
pub open spec fn destroy_round(h: TcHook, s: TcState) -> (TcState, Result<(), Error>) {
    if is_combined(h.attach_point) || qdisc_address_ok(h) {
        let (ret, s1) = kernel_destroy(s, h);
        (s1, destroy_result(h, ret))
    } else {
        (s, Err(Error::System((-spec_einval()) as i32)))
    }
}

} // verus!
