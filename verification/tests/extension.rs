use extender::channel::destroy_host;
use extender::channel::virtual_a;
use extender::channel::virtual_b;
use extender::channel::ChannelDefaults;
use extender::channel::ChannelExtender;
use extender::channel::ChannelOverrides;
use extender::channel::CHANNEL_FIELD_OFFSET;
use extender::session::Session;
use extender::session::SESSION_DISPATCH_TABLE;
use extender::session::SESSION_EXTENDER_OFFSET;

#[test]
fn a_fresh_extender_holds_a_rigged_untouched_object() {
    let e = ChannelExtender::new::<Session>();
    assert!(e.channel_ref().is_rigged());
    assert!(!e.channel_ref().is_destroyed());
    assert_eq!(e.channel_ref().base_a_count(), 0);
    assert_eq!(e.embedder_offset().offset(), SESSION_EXTENDER_OFFSET);
}

#[test]
fn the_extender_records_the_host_types_dispatch_table() {
    assert_eq!(Session::dispatch_table().table, SESSION_DISPATCH_TABLE);
    assert_eq!(Session::extender_offset(), SESSION_EXTENDER_OFFSET);
}

#[test]
fn dispatch_recovers_the_host_address() {
    let e = ChannelExtender::new::<Session>();
    let host_addr = 1000;
    let channel_addr = host_addr + SESSION_EXTENDER_OFFSET + CHANNEL_FIELD_OFFSET;
    assert_eq!(e.dispatch(channel_addr), host_addr);
}

#[test]
fn non_overridden_a_equals_the_bypass_path() {
    // dynamic-dispatch path on a host that keeps the default body for `a`
    let mut dynamic = Session::new();
    virtual_a(&mut dynamic);
    // dispatch-bypassing path, straight to the foreign base body
    let mut bypass = Session::new();
    ChannelDefaults::a(bypass.c.channel_mut());
    assert_eq!(
        dynamic.c.channel_ref().base_a_count(),
        bypass.c.channel_ref().base_a_count()
    );
    assert_eq!(dynamic.c.channel_ref().base_a_count(), 1);
    assert_eq!(
        dynamic.c.channel_ref().is_destroyed(),
        bypass.c.channel_ref().is_destroyed()
    );
}

#[test]
fn overridden_b_runs_the_host_body_not_the_base_body() {
    let s = Session::new();
    let base = ChannelDefaults::b(s.c.channel_ref());
    let dynamic = virtual_b(&s);
    assert_eq!(dynamic, 42);
    assert_ne!(dynamic, base);
    // the base body never ran through the host override
    assert_eq!(base, 0);
}

#[test]
fn destruction_runs_the_foreign_destructor_once_even_if_unused() {
    // no foreign method is ever called on this host
    let mut s = Session::new();
    assert!(!s.c.channel_ref().is_destroyed());
    destroy_host(&mut s);
    assert!(s.c.channel_ref().is_destroyed());
    assert_eq!(s.c.channel_ref().base_a_count(), 0);
}

#[test]
fn end_to_end_override_default_and_teardown() {
    let mut s = Session::new();
    // fields of the host's own around the extender
    assert_eq!(s.a, 1);
    assert_eq!(s.b, "abc");
    // a dynamically dispatched call to the overridden `b` returns the
    // override's fixed value
    assert_eq!(virtual_b(&s), 42);
    // a dynamically dispatched call to the non-overridden `a` runs the
    // foreign base body
    virtual_a(&mut s);
    assert_eq!(s.c.channel_ref().base_a_count(), 1);
    virtual_a(&mut s);
    assert_eq!(s.c.channel_ref().base_a_count(), 2);
    // teardown runs the foreign destructor exactly once and leaves the
    // host's own fields alone
    destroy_host(&mut s);
    assert!(s.c.channel_ref().is_destroyed());
    assert_eq!(s.a, 1);
    assert_eq!(s.b, "abc");
    assert_eq!(s.c.channel_ref().base_a_count(), 2);
}

#[test]
fn host_methods_behave_like_their_dispatch_path() {
    let mut s = Session::new();
    assert_eq!(s.b(), 42);
    s.a();
    assert_eq!(s.extender().channel_ref().base_a_count(), 1);
    assert!(s.extender().channel_ref().is_rigged());
}
