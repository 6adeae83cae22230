//! A demonstration host type: embeds an extender between ordinary fields,
//! keeps the default forwarding body for the virtual method `a`, and
//! overrides the virtual method `b` with a host-language body.

use crate::channel::ChannelCapability;
use crate::channel::ChannelDefaults;
use crate::channel::ChannelExtender;
use crate::channel::ChannelOverrides;
use crate::channel::RustVTable;
use core::marker::PhantomData;
use vstd::prelude::*;

verus! {

/// The byte distance from a `Session`'s start to its embedded extender.
pub const SESSION_EXTENDER_OFFSET: usize = 16;

/// The address of the method table of `Session`'s capability
/// implementation.
pub const SESSION_DISPATCH_TABLE: usize = 4096;

/// The value `Session`'s override of `b` returns, in place of whatever the
/// foreign base body would have returned.
pub const SESSION_B_RESULT: i32 = 42;

/// A host object with ordinary fields of its own around an embedded
/// extender. Its `a` keeps the default body, forwarding to the foreign base
/// implementation; its `b` is overridden with a host-language body, so a
/// foreign virtual call to `b` on this object runs host code.
pub struct Session {
    pub a: i32,
    pub b: String,
    pub c: ChannelExtender,
}

impl ChannelOverrides for Session {
    open spec fn extender_view(&self) -> ChannelExtender {
        self.c
    }

    open spec fn with_extender(self, e: ChannelExtender) -> Session {
        Session { c: e, ..self }
    }

    open spec fn a_req(&self) -> bool {
        &&& !self.c.channel().destroyed()
        &&& self.c.channel().base_a_runs() < u64::MAX
    }

    open spec fn a_spec(pre: Session, post: Session) -> bool {
        &&& post.a == pre.a
        &&& post.b == pre.b
        &&& post.c.extender_offset() == pre.c.extender_offset()
        &&& post.c.rust_vtable() == pre.c.rust_vtable()
        &&& post.c.channel().rigged() == pre.c.channel().rigged()
        &&& post.c.channel().base_value() == pre.c.channel().base_value()
        &&& !post.c.channel().destroyed()
        &&& post.c.channel().base_a_runs() == pre.c.channel().base_a_runs() + 1
    }

    open spec fn b_spec(&self, r: i32) -> bool {
        r == SESSION_B_RESULT
    }

    open spec fn extender_offset_spec() -> usize {
        SESSION_EXTENDER_OFFSET
    }

    open spec fn dispatch_table_spec() -> RustVTable<ChannelCapability> {
        RustVTable { table: SESSION_DISPATCH_TABLE, resolves: PhantomData }
    }

    proof fn extender_coherence(s: Session, e: ChannelExtender) {
    }

    fn extender_offset() -> usize {
        SESSION_EXTENDER_OFFSET
    }

    fn dispatch_table() -> RustVTable<ChannelCapability> {
        RustVTable::new(SESSION_DISPATCH_TABLE)
    }

    fn extender(&self) -> &ChannelExtender {
        &self.c
    }

    fn extender_mut(&mut self) -> &mut ChannelExtender {
        &mut self.c
    }

    /// Not overridden: the default forwarding body, running the foreign base
    /// implementation while bypassing dynamic dispatch.
    fn a(&mut self) {
        ChannelDefaults::a(self.c.channel_mut())
    }

    /// Overridden: a host-language body replaces the foreign base
    /// implementation.
    fn b(&self) -> i32 {
        SESSION_B_RESULT
    }
}

impl Session {
    /// Builds a session around a fresh extender constructed for this type.
    pub fn new() -> (r: Session)
        ensures
            r.a == 1,
            r.b@ == "abc"@,
            r.c.wf(),
            r.c.channel().rigged(),
            !r.c.channel().destroyed(),
            r.c.channel().base_a_runs() == 0,
            r.c.channel().base_value() == 0,
            r.c.extender_offset() == SESSION_EXTENDER_OFFSET,
            r.c.rust_vtable().table_addr() == SESSION_DISPATCH_TABLE,
    {
        Session { a: 1, b: "abc".to_owned(), c: ChannelExtender::new::<Session>() }
    }
}

/// Default forwarding is behavior-preserving: the effect `Session`'s
/// non-overridden `a` has through the dynamic-dispatch path is exactly the
/// effect of the dispatch-bypassing base call `ChannelDefaults::a` on the
/// embedded handle, with every other part of the session untouched.
pub proof fn lemma_default_a_matches_base(pre: Session, post: Session)
    ensures
        Session::a_spec(pre, post) <==> (post.a == pre.a && post.b == pre.b
            && post.c.extender_offset() == pre.c.extender_offset()
            && post.c.rust_vtable() == pre.c.rust_vtable()
            && post.c.channel().rigged() == pre.c.channel().rigged()
            && post.c.channel().base_value() == pre.c.channel().base_value()
            && !post.c.channel().destroyed()
            && post.c.channel().base_a_runs() == pre.c.channel().base_a_runs() + 1),
{
}

/// The override wins: through the dynamic-dispatch path, `Session`'s `b`
/// yields the override's fixed result, whatever the word of foreign base
/// state the base body would have returned.
pub proof fn lemma_override_b_wins(s: Session, r: i32)
    ensures
        s.b_spec(r) <==> r == SESSION_B_RESULT,
{
}

} // verus!
