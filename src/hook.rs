use vstd::prelude::*;

verus! {

/// Where in the traffic-control pipeline a hook is anchored.  The three
/// single points are bits; `INGRESS | EGRESS` names the whole container and
/// serves only to destroy it.
pub type TcAttachPoint = u32;

pub const INGRESS: TcAttachPoint = 1;

pub const EGRESS: TcAttachPoint = 2;

pub const CUSTOM: TcAttachPoint = 4;

pub type TcFlags = u32;

/// Permission for an attach to overwrite the hook that occupies its key.
pub const BPF_TC_F_REPLACE: TcFlags = 1;

/// Major number of the ingress qdisc, shared with the clsact container.
pub const TC_H_INGRESS: u32 = 0xFFFFFFF1;

/// Major number of the clsact container that hosts every hook.
pub const TC_H_CLSACT: u32 = TC_H_INGRESS;

/// Minor number of the ingress side of the clsact container.
pub const TC_H_MIN_INGRESS: u32 = 0xFFF2;

/// Minor number of the egress side of the clsact container.
pub const TC_H_MIN_EGRESS: u32 = 0xFFF3;

/// A failed operation, with the code the kernel side reported for it: the
/// negative return value of a create, detach or destroy, and the positive
/// error number of an attach or a query.
#[derive(Clone, Copy, Debug, PartialEq, Eq, Structural)]
pub enum Error {
    System(i32),
}

/// The address of one traffic-control hook and the options of an attach.
///
/// `ifindex`, `attach_point` and `parent` form the hook record handed to the
/// kernel; `prog_fd`, `prog_id`, `handle`, `priority` and `flags` form the
/// options record.  Two values with equal attach point, parent, handle and
/// priority on one interface address the same kernel object.
#[derive(Clone, Copy, Debug, PartialEq, Eq, Structural)]
pub struct TcHook {
    pub ifindex: i32,
    pub attach_point: TcAttachPoint,
    pub parent: u32,
    pub prog_fd: i32,
    pub prog_id: u32,
    pub handle: u32,
    pub priority: u32,
    pub flags: TcFlags,
}

/// A parent made of the major half of `maj` and the minor half of `min`.
pub open spec fn parent_of(maj: u32, min: u32) -> u32 {
    (maj & 0xFFFF0000u32) | (min & 0x0000FFFFu32)
}

/// The flags that stand for a replace permission.
pub open spec fn flags_of(replace: bool) -> TcFlags {
    if replace {
        BPF_TC_F_REPLACE
    } else {
        0
    }
}

/// A hook with nothing set but the program it binds.
pub open spec fn fresh_hook(fd: i32) -> TcHook {
    TcHook {
        ifindex: 0,
        attach_point: 0,
        parent: 0,
        prog_fd: fd,
        prog_id: 0,
        handle: 0,
        priority: 0,
        flags: 0,
    }
}

impl TcHook {
    /// A hook that binds the loaded program `fd`, with every other field unset.
    pub fn new(fd: i32) -> (r: Self)
        ensures
            r == fresh_hook(fd),
    {
        TcHook {
            ifindex: 0,
            attach_point: 0,
            parent: 0,
            prog_fd: fd,
            prog_id: 0,
            handle: 0,
            priority: 0,
            flags: 0,
        }
    }

    /// Sets the interface the hook sits on.
    pub fn ifindex(&mut self, idx: i32) -> (r: &mut Self)
        ensures
            *r == (TcHook { ifindex: idx, ..*old(self) }),
            *final(self) == *final(r),
    {
        self.ifindex = idx;
        self
    }

    /// Sets where the hook is anchored: `INGRESS`, `EGRESS` or `CUSTOM`, or
    /// `INGRESS | EGRESS` for a hook that only destroys the container.
    pub fn attach_point(&mut self, ap: TcAttachPoint) -> (r: &mut Self)
        ensures
            *r == (TcHook { attach_point: ap, ..*old(self) }),
            *final(self) == *final(r),
    {
        self.attach_point = ap;
        self
    }

    /// Sets the parent from a major and a minor number.  A `CUSTOM` hook needs
    /// one (`TC_H_CLSACT` with `TC_H_MIN_INGRESS` or `TC_H_MIN_EGRESS`); an
    /// `INGRESS` or `EGRESS` hook must have none.
    pub fn parent(&mut self, maj: u32, min: u32) -> (r: &mut Self)
        ensures
            *r == (TcHook { parent: parent_of(maj, min), ..*old(self) }),
            *final(self) == *final(r),
    {
        let parent = (maj & 0xFFFF0000u32) | (min & 0x0000FFFFu32);
        self.parent = parent;
        self
    }

    /// Sets whether an attach may overwrite the hook that occupies its key.
    pub fn replace(&mut self, replace: bool) -> (r: &mut Self)
        ensures
            *r == (TcHook { flags: flags_of(replace), ..*old(self) }),
            *final(self) == *final(r),
    {
        if replace {
            self.flags = BPF_TC_F_REPLACE;
        } else {
            self.flags = 0;
        }
        self
    }

    /// Sets the handle; left at zero, the kernel picks one on attach.
    pub fn handle(&mut self, handle: u32) -> (r: &mut Self)
        ensures
            *r == (TcHook { handle: handle, ..*old(self) }),
            *final(self) == *final(r),
    {
        self.handle = handle;
        self
    }

    /// Sets the priority; left at zero, the kernel picks one on attach.
    pub fn priority(&mut self, priority: u32) -> (r: &mut Self)
        ensures
            *r == (TcHook { priority: priority, ..*old(self) }),
            *final(self) == *final(r),
    {
        self.priority = priority;
        self
    }
}

} // verus!
