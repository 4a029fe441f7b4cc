use tc_hook::{
    Error, FilterInfo, TcHook, TcHookBuilder, BPF_TC_F_REPLACE, CUSTOM, EGRESS, INGRESS,
    TC_H_CLSACT, TC_H_INGRESS, TC_H_MIN_EGRESS, TC_H_MIN_INGRESS,
};

fn info(prog_id: u32) -> FilterInfo {
    FilterInfo { prog_id, handle: 5, priority: 6 }
}

#[test]
fn constants_match_kernel_abi() {
    assert_eq!(INGRESS, 1);
    assert_eq!(EGRESS, 2);
    assert_eq!(CUSTOM, 4);
    assert_eq!(BPF_TC_F_REPLACE, 1);
    assert_eq!(TC_H_INGRESS, 0xFFFF_FFF1);
    assert_eq!(TC_H_CLSACT, TC_H_INGRESS);
    assert_eq!(TC_H_MIN_INGRESS, 0xFFF2);
    assert_eq!(TC_H_MIN_EGRESS, 0xFFF3);
}

#[test]
fn new_hook_binds_only_the_program() {
    let h = TcHook::new(9);
    assert_eq!(h.prog_fd, 9);
    assert_eq!((h.ifindex, h.attach_point, h.parent), (0, 0, 0));
    assert_eq!((h.prog_id, h.handle, h.priority, h.flags), (0, 0, 0, 0));
}

#[test]
fn parent_keeps_major_and_minor_halves() {
    let mut h = TcHook::new(1);
    h.parent(TC_H_CLSACT, TC_H_MIN_INGRESS);
    assert_eq!(h.parent, 0xFFFF_FFF2);
    h.parent(0x1234_5678, 0x9ABC_DEF0);
    assert_eq!(h.parent, 0x1234_DEF0);
    h.parent(0xFFFF, 0xFFFF_0000);
    assert_eq!(h.parent, 0);
}

#[test]
fn setters_chain() {
    let mut h = TcHook::new(3);
    h.ifindex(4).attach_point(EGRESS).handle(7).priority(8).replace(true);
    assert_eq!((h.ifindex, h.attach_point, h.handle, h.priority), (4, EGRESS, 7, 8));
    assert_eq!(h.flags, BPF_TC_F_REPLACE);
    h.replace(false);
    assert_eq!(h.flags, 0);
}

#[test]
fn builder_stamps_independent_hooks() {
    let mut b = TcHookBuilder::new();
    b.fd(11).ifindex(2).parent(TC_H_CLSACT, TC_H_MIN_EGRESS).replace(true).handle(3).priority(4);
    let mut e = b.hook(EGRESS);
    let c = b.hook(CUSTOM);
    assert_eq!(e.prog_fd, 11);
    assert_eq!(e.ifindex, 2);
    assert_eq!(e.attach_point, EGRESS);
    assert_eq!(c.attach_point, CUSTOM);
    assert_eq!(e.parent, 0xFFFF_FFF3);
    assert_eq!(e.flags, BPF_TC_F_REPLACE);
    assert_eq!((e.handle, e.priority, e.prog_id), (3, 4, 0));
    e.handle(9);
    assert_eq!(c.handle, 3);
    assert_eq!(b.hook(INGRESS).handle, 3);
}

#[test]
fn parent_on_ingress_or_egress_is_invalid_for_attach() {
    for ap in [INGRESS, EGRESS] {
        let mut h = TcHook::new(1);
        h.ifindex(1).attach_point(ap).parent(TC_H_CLSACT, TC_H_MIN_INGRESS);
        assert_eq!(h.attach_request(), Err(Error::System(22)));
    }
}

#[test]
fn custom_without_parent_is_invalid() {
    let mut h = TcHook::new(1);
    h.ifindex(1).attach_point(CUSTOM);
    assert_eq!(h.query_request(), Err(Error::System(22)));
    assert_eq!(h.detach_request(), Err(Error::System(-22)));
}

#[test]
fn zero_interface_is_invalid() {
    let mut h = TcHook::new(1);
    h.attach_point(INGRESS);
    assert_eq!(h.create_request().err(), Some(Error::System(-22)));
    assert_eq!(h.attach_request(), Err(Error::System(22)));
}

#[test]
fn combined_point_cannot_attach() {
    let mut h = TcHook::new(1);
    h.ifindex(1).attach_point(INGRESS | EGRESS);
    assert_eq!(h.attach_request(), Err(Error::System(22)));
    assert!(h.create_request().is_ok());
}

#[test]
fn attach_request_clears_stale_program_id() {
    let mut h = TcHook::new(5);
    h.ifindex(1).attach_point(INGRESS).handle(1).priority(1);
    h.prog_id = 77;
    let req = h.attach_request().unwrap();
    assert_eq!(req.prog_id, 0);
    assert_eq!(req.prog_fd, 5);
    assert_eq!(h.prog_id, 0);
}

#[test]
fn lookup_requests_zero_program_and_flags() {
    let mut h = TcHook::new(5);
    h.ifindex(1).attach_point(EGRESS).handle(2).priority(3).replace(true);
    h.prog_id = 8;
    let q = h.query_request().unwrap();
    assert_eq!((q.prog_fd, q.prog_id, q.flags), (0, 0, 0));
    assert_eq!((q.handle, q.priority, q.ifindex), (2, 3, 1));
    let d = h.detach_request().unwrap();
    assert_eq!((d.prog_fd, d.prog_id, d.flags), (0, 0, 0));
    assert_eq!(h.prog_id, 8);
}

#[test]
fn create_accepts_existing_container() {
    let mut h = TcHook::new(1);
    h.ifindex(1).attach_point(INGRESS);
    assert!(h.create(0).is_ok());
    assert!(h.create(-17).is_ok());
    assert_eq!(h.create(-1).err(), Some(Error::System(-1)));
    assert_eq!(h.create(17).err(), Some(Error::System(17)));
}

#[test]
fn custom_cannot_create_or_destroy() {
    let mut h = TcHook::new(1);
    h.ifindex(1).attach_point(CUSTOM).parent(TC_H_CLSACT, TC_H_MIN_INGRESS);
    let unsupported = Error::System(-(nix::errno::Errno::EOPNOTSUPP as i32));
    assert_eq!(h.create_request().err(), Some(unsupported));
    assert_eq!(h.create(0).err(), Some(unsupported));
    assert_eq!(h.destroy_request().err(), Some(unsupported));
    assert_eq!(h.destroy(0), Err(unsupported));
}

#[test]
fn attach_takes_reported_filter() {
    let mut h = TcHook::new(1);
    h.ifindex(1).attach_point(INGRESS);
    let r = h.attach(0, 0, info(42)).unwrap();
    assert_eq!((h.prog_id, h.handle, h.priority), (42, 5, 6));
    assert_eq!(r.prog_id, 42);
}

#[test]
fn attach_failure_reports_errno() {
    let mut h = TcHook::new(1);
    h.ifindex(1).attach_point(INGRESS).handle(1);
    h.prog_id = 3;
    assert_eq!(h.attach(-17, 17, info(42)).err(), Some(Error::System(17)));
    assert_eq!(h.prog_id, 0);
    assert_eq!(h.handle, 1);
}

#[test]
fn query_returns_reported_id() {
    let h = TcHook::new(1);
    assert_eq!(h.query(0, 0, info(99)), Ok(99));
    assert_eq!(h.query(-2, 2, info(99)), Err(Error::System(2)));
}

#[test]
fn detach_treats_missing_filter_as_done() {
    let mut h = TcHook::new(1);
    h.prog_id = 12;
    assert_eq!(h.detach(-13), Err(Error::System(-13)));
    assert_eq!(h.prog_id, 12);
    assert_eq!(h.detach(-2), Ok(()));
    assert_eq!(h.prog_id, 0);
    h.prog_id = 12;
    assert_eq!(h.detach(0), Ok(()));
    assert_eq!(h.prog_id, 0);
}

#[test]
fn destroy_of_absent_container_is_done_only_when_combined() {
    let mut all = TcHook::new(1);
    all.ifindex(1).attach_point(INGRESS | EGRESS);
    assert_eq!(all.destroy(-22), Ok(()));
    assert_eq!(all.destroy(0), Ok(()));
    assert_eq!(all.destroy(-1), Err(Error::System(-1)));
    let mut one = TcHook::new(1);
    one.ifindex(1).attach_point(EGRESS);
    assert_eq!(one.destroy(-22), Err(Error::System(-22)));
    assert_eq!(one.destroy(0), Ok(()));
}

#[test]
fn destroy_request_checks_single_points() {
    let mut one = TcHook::new(1);
    one.attach_point(EGRESS);
    assert_eq!(one.destroy_request().err(), Some(Error::System(-22)));
    one.ifindex(3);
    assert!(one.destroy_request().is_ok());
    let mut all = TcHook::new(1);
    all.attach_point(INGRESS | EGRESS);
    assert!(all.destroy_request().is_ok());
}
