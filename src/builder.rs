use vstd::prelude::*;
use crate::hook::{flags_of, fresh_hook, parent_of, TcAttachPoint, TcHook};

verus! {

/// A template for hooks that share most of their values.  Each hook it makes
/// is independent of it and of the others.
#[derive(Debug)]
pub struct TcHookBuilder {
    pub fd: i32,
    pub ifindex: i32,
    pub parent_maj: u32,
    pub parent_min: u32,
    pub replace: bool,
    pub handle: u32,
    pub priority: u32,
}

/// The hook that `b` makes for the attach point `ap`.
pub open spec fn hook_from(b: TcHookBuilder, ap: TcAttachPoint) -> TcHook {
    TcHook {
        ifindex: b.ifindex,
        attach_point: ap,
        parent: parent_of(b.parent_maj, b.parent_min),
        flags: flags_of(b.replace),
        handle: b.handle,
        priority: b.priority,
        ..fresh_hook(b.fd)
    }
}

impl Default for TcHookBuilder {
    fn default() -> (r: Self)
        ensures
            r == (TcHookBuilder {
                fd: 0,
                ifindex: 0,
                parent_maj: 0,
                parent_min: 0,
                replace: false,
                handle: 0,
                priority: 0,
            }),
    {
        TcHookBuilder {
            fd: 0,
            ifindex: 0,
            parent_maj: 0,
            parent_min: 0,
            replace: false,
            handle: 0,
            priority: 0,
        }
    }
}

impl TcHookBuilder {
    /// A builder with every value unset.
    pub fn new() -> (r: Self)
        ensures
            r == (TcHookBuilder {
                fd: 0,
                ifindex: 0,
                parent_maj: 0,
                parent_min: 0,
                replace: false,
                handle: 0,
                priority: 0,
            }),
    {
        TcHookBuilder::default()
    }

    /// Sets the program the hooks bind.
    pub fn fd(&mut self, fd: i32) -> (r: &mut Self)
        ensures
            *r == (TcHookBuilder { fd: fd, ..*old(self) }),
            *final(self) == *final(r),
    {
        self.fd = fd;
        self
    }

    /// Sets the interface the hooks sit on.
    pub fn ifindex(&mut self, ifindex: i32) -> (r: &mut Self)
        ensures
            *r == (TcHookBuilder { ifindex: ifindex, ..*old(self) }),
            *final(self) == *final(r),
    {
        self.ifindex = ifindex;
        self
    }

    /// Sets the parent's major and minor numbers.
    pub fn parent(&mut self, maj: u32, min: u32) -> (r: &mut Self)
        ensures
            *r == (TcHookBuilder { parent_maj: maj, parent_min: min, ..*old(self) }),
            *final(self) == *final(r),
    {
        self.parent_maj = maj;
        self.parent_min = min;
        self
    }

    /// Sets whether the hooks may overwrite the hook at their key.
    pub fn replace(&mut self, replace: bool) -> (r: &mut Self)
        ensures
            *r == (TcHookBuilder { replace: replace, ..*old(self) }),
            *final(self) == *final(r),
    {
        self.replace = replace;
        self
    }

    /// Sets the handle of the hooks.
    pub fn handle(&mut self, handle: u32) -> (r: &mut Self)
        ensures
            *r == (TcHookBuilder { handle: handle, ..*old(self) }),
            *final(self) == *final(r),
    {
        self.handle = handle;
        self
    }

    /// Sets the priority of the hooks.
    pub fn priority(&mut self, priority: u32) -> (r: &mut Self)
        ensures
            *r == (TcHookBuilder { priority: priority, ..*old(self) }),
            *final(self) == *final(r),
    {
        self.priority = priority;
        self
    }

    /// A hook for `attach_point` with the values of this template.
    pub fn hook(&self, attach_point: TcAttachPoint) -> (r: TcHook)
        ensures
            r == hook_from(*self, attach_point),
    {
        let mut hook = TcHook::new(self.fd);
        hook.ifindex(self.ifindex)
            .handle(self.handle)
            .priority(self.priority)
            .parent(self.parent_maj, self.parent_min)
            .replace(self.replace)
            .attach_point(attach_point);
        hook
    }
}

} // verus!
