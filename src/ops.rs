use vstd::prelude::*;
use crate::errno::{eexist, einval, enoent, eopnotsupp, spec_eexist, spec_einval, spec_enoent};
use crate::hook::{Error, TcAttachPoint, TcHook, CUSTOM, EGRESS, INGRESS};

verus! {

/// What the kernel reports back of a filter after an attach or a query.
#[derive(Clone, Copy, Debug, PartialEq, Eq, Structural)]
pub struct FilterInfo {
    pub prog_id: u32,
    pub handle: u32,
    pub priority: u32,
}

/// The value that names the whole container, both attach points at once:
/// `INGRESS | EGRESS`, which is 3.
pub open spec fn is_combined(ap: TcAttachPoint) -> bool {
    ap == 3u32
}

/// Whether `h` addresses one filter as the addressing rules ask: a positive
/// interface index, and a parent exactly when the attach point is `CUSTOM`.
pub open spec fn filter_address_ok(h: TcHook) -> bool {
    &&& h.ifindex > 0
    &&& if h.attach_point == CUSTOM {
        h.parent != 0
    } else {
        (h.attach_point == INGRESS || h.attach_point == EGRESS) && h.parent == 0
    }
}

/// Whether `h` addresses the container through an attach point that can
/// create it: a positive interface index, `INGRESS`, `EGRESS` or both, and no
/// parent.
pub open spec fn qdisc_address_ok(h: TcHook) -> bool {
    &&& h.ifindex > 0
    &&& h.parent == 0
    &&& (h.attach_point == INGRESS || h.attach_point == EGRESS || is_combined(h.attach_point))
}

/// Whether `e` is the error of an operation that the attach point does not
/// support.
pub open spec fn is_unsupported(e: Error) -> bool {
    e matches Error::System(c) && c < 0 && c != -spec_einval() && c != -spec_eexist() && c
        != -spec_enoent()
}

/// The options sent by a query or a detach: program, identifier and flags
/// are inputs that these calls ignore, so they go out zeroed.
pub open spec fn lookup_opts(h: TcHook) -> TcHook {
    TcHook { prog_fd: 0, prog_id: 0, flags: 0, ..h }
}

/// `h` with its tracked program identifier cleared.
pub open spec fn cleared(h: TcHook) -> TcHook {
    TcHook { prog_id: 0, ..h }
}

/// What a request for one filter (attach, query, detach) gives: the records
/// `sent`, when `h` is well addressed, else the invalid-argument error `bad`.
pub open spec fn filter_request(h: TcHook, sent: TcHook, bad: i32) -> Result<TcHook, Error> {
    if filter_address_ok(h) {
        Ok(sent)
    } else {
        Err(Error::System(bad))
    }
}

/// The result of a create on a hook that is not `CUSTOM`.
pub open spec fn create_result(h: TcHook, ret: i32) -> Result<TcHook, Error> {
    if ret == 0 || ret == -spec_eexist() {
        Ok(h)
    } else {
        Err(Error::System(ret))
    }
}

/// The hook after an attach, and its result.
pub open spec fn attach_result(h: TcHook, ret: i32, err_no: i32, info: FilterInfo) -> (
    TcHook,
    Result<TcHook, Error>,
) {
    if ret == 0 {
        let n = TcHook { prog_id: info.prog_id, handle: info.handle, priority: info.priority, ..h };
        (n, Ok(n))
    } else {
        (cleared(h), Err(Error::System(err_no)))
    }
}

/// The result of a query.
pub open spec fn query_result(ret: i32, err_no: i32, info: FilterInfo) -> Result<u32, Error> {
    if ret == 0 {
        Ok(info.prog_id)
    } else {
        Err(Error::System(err_no))
    }
}

/// The hook after a detach, and its result.
pub open spec fn detach_result(h: TcHook, ret: i32) -> (TcHook, Result<(), Error>) {
    if ret == 0 || ret == -spec_enoent() {
        (cleared(h), Ok(()))
    } else {
        (h, Err(Error::System(ret)))
    }
}

/// The result of a destroy on a hook that is not `CUSTOM`.
pub open spec fn destroy_result(h: TcHook, ret: i32) -> Result<(), Error> {
    if ret == 0 || (ret == -spec_einval() && is_combined(h.attach_point)) {
        Ok(())
    } else {
        Err(Error::System(ret))
    }
}

/// `INGRESS | EGRESS` differs from each single attach point.
proof fn lemma_combined_value()
    ensures
        INGRESS | EGRESS == 3u32,
{
    assert(1u32 | 2u32 == 3u32) by (bit_vector);
}

fn unsupported() -> (r: Error)
    ensures
        is_unsupported(r),
{
    let c = eopnotsupp();
    Error::System(-c)
}

impl TcHook {
    /// The hook record to send when creating the container, or the error
    /// that stops the call before it is sent.  A `CUSTOM` hook cannot create
    /// the container: an `INGRESS` or `EGRESS` hook on the same interface
    /// must do it first.
    pub fn create_request(&self) -> (r: Result<TcHook, Error>)
        ensures
            self.attach_point == CUSTOM ==> (r matches Err(e) && is_unsupported(e)),
            self.attach_point != CUSTOM && qdisc_address_ok(*self) ==> r == Ok::<TcHook, Error>(
                *self,
            ),
            self.attach_point != CUSTOM && !qdisc_address_ok(*self) ==> r == Err::<TcHook, Error>(
                Error::System((-spec_einval()) as i32),
            ),
    {
        proof {
            lemma_combined_value();
        }
        if self.attach_point == CUSTOM {
            Err(unsupported())
        } else if self.ifindex > 0 && self.parent == 0 && (self.attach_point == INGRESS
            || self.attach_point == EGRESS || self.attach_point == INGRESS | EGRESS) {
            Ok(*self)
        } else {
            Err(Error::System(-einval()))
        }
    }

    /// Decides a create from the kernel's return value `ret`.  A container
    /// that exists already is no error; a `CUSTOM` hook always fails.
    pub fn create(&self, ret: i32) -> (r: Result<TcHook, Error>)
        ensures
            self.attach_point == CUSTOM ==> (r matches Err(e) && is_unsupported(e)),
            self.attach_point != CUSTOM ==> r == create_result(*self, ret),
    {
        if self.attach_point == CUSTOM {
            Err(unsupported())
        } else if ret != 0 && ret != -eexist() {
            Err(Error::System(ret))
        } else {
            Ok(*self)
        }
    }

    /// The records to send to attach the program, or the error that stops
    /// the call before it is sent.  The tracked program identifier is
    /// cleared first either way, so that no stale value goes out.
    pub fn attach_request(&mut self) -> (r: Result<TcHook, Error>)
        ensures
            *final(self) == cleared(*old(self)),
            r == filter_request(*old(self), cleared(*old(self)), spec_einval()),
    {
        self.prog_id = 0;
        if self.ifindex > 0 && (if self.attach_point == CUSTOM {
            self.parent != 0
        } else {
            (self.attach_point == INGRESS || self.attach_point == EGRESS) && self.parent == 0
        }) {
            Ok(*self)
        } else {
            Err(Error::System(einval()))
        }
    }

    /// Decides an attach from the kernel's return value `ret`, the thread's
    /// error number `err_no` after the call, and what the kernel reported
    /// of the new filter.  On success the hook takes the reported identifier,
    /// handle and priority.
    pub fn attach(&mut self, ret: i32, err_no: i32, info: FilterInfo) -> (r: Result<TcHook, Error>)
        ensures
            (*final(self), r) == attach_result(*old(self), ret, err_no, info),
    {
        if ret != 0 {
            self.prog_id = 0;
            Err(Error::System(err_no))
        } else {
            self.prog_id = info.prog_id;
            self.handle = info.handle;
            self.priority = info.priority;
            Ok(*self)
        }
    }

    /// The records to send to query the filter at this hook's key, or the
    /// error that stops the call before it is sent.  The hook is not touched.
    pub fn query_request(&self) -> (r: Result<TcHook, Error>)
        ensures
            r == filter_request(*self, lookup_opts(*self), spec_einval()),
    {
        if self.ifindex > 0 && (if self.attach_point == CUSTOM {
            self.parent != 0
        } else {
            (self.attach_point == INGRESS || self.attach_point == EGRESS) && self.parent == 0
        }) {
            let mut opts = *self;
            opts.prog_fd = 0;
            opts.prog_id = 0;
            opts.flags = 0;
            Ok(opts)
        } else {
            Err(Error::System(einval()))
        }
    }

    /// Decides a query from the kernel's return value `ret`, the thread's
    /// error number `err_no`, and what the kernel reported: the identifier of
    /// the program bound at this hook's key.
    pub fn query(&self, ret: i32, err_no: i32, info: FilterInfo) -> (r: Result<u32, Error>)
        ensures
            r == query_result(ret, err_no, info),
    {
        if ret != 0 {
            Err(Error::System(err_no))
        } else {
            Ok(info.prog_id)
        }
    }

    /// The records to send to detach the filter at this hook's key, or the
    /// error that stops the call before it is sent.
    pub fn detach_request(&self) -> (r: Result<TcHook, Error>)
        ensures
            r == filter_request(*self, lookup_opts(*self), (-spec_einval()) as i32),
    {
        if self.ifindex > 0 && (if self.attach_point == CUSTOM {
            self.parent != 0
        } else {
            (self.attach_point == INGRESS || self.attach_point == EGRESS) && self.parent == 0
        }) {
            let mut opts = *self;
            opts.prog_fd = 0;
            opts.prog_id = 0;
            opts.flags = 0;
            Ok(opts)
        } else {
            Err(Error::System(-einval()))
        }
    }

    /// Decides a detach from the kernel's return value `ret`.  A filter that
    /// is already gone is no error.  On success the tracked program
    /// identifier is cleared; on failure the hook is unchanged.
    pub fn detach(&mut self, ret: i32) -> (r: Result<(), Error>)
        ensures
            (*final(self), r) == detach_result(*old(self), ret),
    {
        if ret != 0 && ret != -enoent() {
            Err(Error::System(ret))
        } else {
            self.prog_id = 0;
            Ok(())
        }
    }

    /// The hook record to send to destroy, or the error that stops the call
    /// before it is sent.  `INGRESS` or `EGRESS` removes every filter at
    /// that point; both at once remove the whole container, with every hook
    /// in it whoever owns it.  `CUSTOM` cannot be destroyed.
    pub fn destroy_request(&self) -> (r: Result<TcHook, Error>)
        ensures
            self.attach_point == CUSTOM ==> (r matches Err(e) && is_unsupported(e)),
            is_combined(self.attach_point) ==> r == Ok::<TcHook, Error>(*self),
            self.attach_point != CUSTOM && !is_combined(self.attach_point) ==> r == if qdisc_address_ok(
                *self,
            ) {
                Ok::<TcHook, Error>(*self)
            } else {
                Err::<TcHook, Error>(Error::System((-spec_einval()) as i32))
            },
    {
        proof {
            lemma_combined_value();
        }
        if self.attach_point == CUSTOM {
            Err(unsupported())
        } else if self.attach_point == INGRESS | EGRESS {
            Ok(*self)
        } else if self.ifindex > 0 && self.parent == 0 && (self.attach_point == INGRESS
            || self.attach_point == EGRESS) {
            Ok(*self)
        } else {
            Err(Error::System(-einval()))
        }
    }

    /// Decides a destroy from the kernel's return value `ret`.  Destroying
    /// the whole container when there is none is no error; the same reply
    /// for a single attach point is.
    pub fn destroy(&self, ret: i32) -> (r: Result<(), Error>)
        ensures
            self.attach_point == CUSTOM ==> (r matches Err(e) && is_unsupported(e)),
            self.attach_point != CUSTOM ==> r == destroy_result(*self, ret),
    {
        proof {
            lemma_combined_value();
        }
        if self.attach_point == CUSTOM {
            Err(unsupported())
        } else if ret == -einval() && self.attach_point == INGRESS | EGRESS {
            Ok(())
        } else if ret != 0 {
            Err(Error::System(ret))
        } else {
            Ok(())
        }
    }
}

} // verus!
