//! Laws of the hook operations: what holds of every hook and every state.
use vstd::prelude::*;
use crate::errno::{spec_eexist, spec_einval, spec_enoent};
use crate::hook::{parent_of, Error, TcHook, BPF_TC_F_REPLACE, CUSTOM, EGRESS, INGRESS};
use crate::model::{
    attach_round, attach_rounds, create_round, destroy_round, detach_round, key, query_round,
    state_ok, TcState,
};
use crate::ops::{cleared, filter_address_ok, filter_request, is_combined, qdisc_address_ok};

verus! {

/// An `INGRESS` or `EGRESS` hook that is given a non-zero parent cannot be
/// attached: the request fails with an invalid argument, whatever else the
/// hook holds.
pub proof fn law_parent_rejected_on_ingress_egress(h: TcHook, maj: u32, min: u32)
    requires
        h.attach_point == INGRESS || h.attach_point == EGRESS,
        parent_of(maj, min) != 0,
    ensures
        ({
            let p = TcHook { parent: parent_of(maj, min), ..h };
            filter_request(p, cleared(p), spec_einval()) == Err::<TcHook, Error>(
                Error::System(spec_einval()),
            )
        }),
{
}

/// Creating the container twice in a row succeeds both times, whether or
/// not it existed before.
pub proof fn law_create_idempotent(h: TcHook, s: TcState)
    requires
        qdisc_address_ok(h),
    ensures
        ({
            let (s1, r1) = create_round(h, s);
            let (s2, r2) = create_round(h, s1);
            r1 == Ok::<TcHook, Error>(h) && r2 == Ok::<TcHook, Error>(h) && s2.qdisc
        }),
{
}

/// With replace set and the container present, any number of attaches in a
/// row all succeed, and leave program `id` at the hook's key and in the hook.
pub proof fn law_replace_attach_repeats(h: TcHook, s: TcState, id: u32, n: nat)
    requires
        filter_address_ok(h),
        h.flags == BPF_TC_F_REPLACE,
        s.qdisc,
    ensures
        ({
            let (h2, s2, ok) = attach_rounds(h, s, id, n);
            &&& ok
            &&& s2.qdisc
            &&& key(h2) == key(h)
            &&& n > 0 ==> h2.prog_id == id && s2.filters.contains_key(key(h)) && s2.filters[key(h)]
                == id
        }),
    decreases n,
{
    if n > 0 {
        let (h1, s1, r) = attach_round(h, s, id);
        law_replace_attach_repeats(h1, s1, id, (n - 1) as nat);
    }
}

/// Without replace, an attach to a free key succeeds once; a second attach
/// to the same key fails with "exists" and leaves the first program bound.
pub proof fn law_exclusive_attach(h: TcHook, s: TcState, id: u32)
    requires
        filter_address_ok(h),
        h.flags == 0,
        s.qdisc,
        !s.filters.contains_key(key(h)),
    ensures
        ({
            let (h1, s1, r1) = attach_round(h, s, id);
            let (h2, s2, r2) = attach_round(h1, s1, id);
            &&& r1 is Ok
            &&& r2 == Err::<TcHook, Error>(Error::System(spec_eexist()))
            &&& s2 == s1
            &&& s1.filters[key(h)] == id
        }),
{
}

/// Detaching twice in a row: the first removes the filter at the key, the
/// second finds nothing and still succeeds, changing nothing.
pub proof fn law_detach_twice(h: TcHook, s: TcState)
    requires
        filter_address_ok(h),
        s.filters.contains_key(key(h)),
    ensures
        ({
            let (h1, s1, r1) = detach_round(h, s);
            let (h2, s2, r2) = detach_round(h1, s1);
            &&& r1 == Ok::<(), Error>(())
            &&& !s1.filters.contains_key(key(h))
            &&& h1.prog_id == 0
            &&& r2 == Ok::<(), Error>(())
            &&& s2 == s1
            &&& h2 == h1
        }),
{
}

/// Destroying the whole container succeeds, present or not, and afterwards
/// a query of any hook on the interface finds nothing.
pub proof fn law_destroy_all_clears(d: TcHook, h: TcHook, s: TcState)
    requires
        is_combined(d.attach_point),
        filter_address_ok(h),
        state_ok(s),
    ensures
        ({
            let (s1, r) = destroy_round(d, s);
            &&& r == Ok::<(), Error>(())
            &&& !s1.qdisc
            &&& query_round(h, s1) == Err::<u32, Error>(Error::System(spec_enoent()))
        }),
{
}

/// A `CUSTOM` hook cannot attach while the interface has no container, and
/// can as soon as an `INGRESS` or `EGRESS` hook has created it.
pub proof fn law_custom_needs_container(c: TcHook, i: TcHook, s: TcState, id: u32)
    requires
        c.attach_point == CUSTOM,
        filter_address_ok(c),
        c.flags == BPF_TC_F_REPLACE,
        i.attach_point == INGRESS || i.attach_point == EGRESS,
        qdisc_address_ok(i),
        !s.qdisc,
    ensures
        attach_round(c, s, id).2 == Err::<TcHook, Error>(Error::System(spec_einval())),
        ({
            let (s1, r) = create_round(i, s);
            r is Ok && attach_round(c, s1, id).2 is Ok
        }),
{
}

/// Every operation keeps the state one that the kernel can be in.
pub proof fn law_rounds_keep_state_ok(h: TcHook, s: TcState, id: u32)
    requires
        state_ok(s),
    ensures
        state_ok(create_round(h, s).0),
        state_ok(attach_round(h, s, id).1),
        state_ok(detach_round(h, s).1),
        state_ok(destroy_round(h, s).0),
{
}

} // verus!
