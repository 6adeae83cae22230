//! The extension mechanism around one foreign virtual class: the handle
//! model, the capability trait a host type implements, the extender it
//! embeds, and the dynamic-dispatch path the foreign runtime takes.

use crate::offset::FieldOffset;
use crate::offset::Opaque;
use core::marker::PhantomData;
use vstd::prelude::*;

verus! {

/// The host-side model of one foreign object, reduced to what the host can
/// observe across the binary boundary: whether the overriding constructor
/// rigged its vtable toward this system's trampolines, one word of the base
/// object's internal state (what the foreign base body of `b` returns), how
/// many times the foreign base body of `a` has run, and whether the foreign
/// destructor has run. The genuine handle, a single machine word holding the
/// foreign vtable pointer, lives outside the verified library.
pub struct Channel {
    rigged: bool,
    base_value: i32,
    base_a_runs: u64,
    destroyed: bool,
}

impl Channel {
    /// Whether the object's vtable routes virtual calls to the trampolines.
    pub closed spec fn rigged(self) -> bool {
        self.rigged
    }

    /// The word of base state the foreign constructor initialized; the
    /// foreign base body of `b` returns it.
    pub closed spec fn base_value(self) -> i32 {
        self.base_value
    }

    /// How many times the foreign base body of `a` has run.
    pub closed spec fn base_a_runs(self) -> u64 {
        self.base_a_runs
    }

    /// Whether the foreign destructor has run.
    pub closed spec fn destroyed(self) -> bool {
        self.destroyed
    }

    /// Model of the overriding foreign constructor: builds a fresh foreign
    /// object of identical size and layout to an ordinary instance, with its
    /// vtable rewritten so every virtual call lands in a trampoline instead
    /// of the foreign base implementation.
    pub fn construct_overridden() -> (c: Channel)
        ensures
            c.rigged(),
            c.base_value() == 0,
            c.base_a_runs() == 0,
            !c.destroyed(),
    {
        Channel { rigged: true, base_value: 0, base_a_runs: 0, destroyed: false }
    }

    /// Model of the foreign destructor. The embedding discipline runs it
    /// exactly once per object, never on one already destroyed, and it runs
    /// no virtual method body.
    pub fn destroy(&mut self)
        requires
            !old(self).destroyed(),
        ensures
            final(self).destroyed(),
            final(self).rigged() == old(self).rigged(),
            final(self).base_value() == old(self).base_value(),
            final(self).base_a_runs() == old(self).base_a_runs(),
    {
        self.destroyed = true;
    }

    /// Whether the foreign destructor has run.
    pub fn is_destroyed(&self) -> (r: bool)
        ensures
            r == self.destroyed(),
    {
        self.destroyed
    }

    /// Whether the object's vtable routes virtual calls to the trampolines.
    pub fn is_rigged(&self) -> (r: bool)
        ensures
            r == self.rigged(),
    {
        self.rigged
    }

    /// How many times the foreign base body of `a` has run.
    pub fn base_a_count(&self) -> (r: u64)
        ensures
            r == self.base_a_runs(),
    {
        self.base_a_runs
    }
}

/// The base-implementation entries: one per virtual method, each running the
/// foreign base body while bypassing dynamic dispatch (the foreign side's
/// `object.Base::method()` form). A host type's capability method forwards
/// here when it does not override, and an override may call them to compose
/// with the base behavior.
pub struct ChannelDefaults;

impl ChannelDefaults {
    /// The foreign base body of `a`, bypassing dynamic dispatch.
    pub fn a(this: &mut Channel)
        requires
            !old(this).destroyed(),
            old(this).base_a_runs() < u64::MAX,
        ensures
            final(this).base_a_runs() == old(this).base_a_runs() + 1,
            final(this).rigged() == old(this).rigged(),
            final(this).base_value() == old(this).base_value(),
            !final(this).destroyed(),
    {
        this.base_a_runs = this.base_a_runs + 1;
    }

    /// The foreign base body of `b`, bypassing dynamic dispatch: returns the
    /// word of base state the foreign constructor initialized.
    pub fn b(this: &Channel) -> (r: i32)
        requires
            !this.destroyed(),
        ensures
            r == this.base_value(),
    {
        this.base_value
    }
}

/// Tag for the capability a polymorphic host reference resolves to; a
/// `RustVTable` carrying this tag identifies one concrete implementation of
/// `ChannelOverrides`.
pub struct ChannelCapability;

/// The identification half of a polymorphic reference: the address of the
/// method table of one concrete implementation of the capability `DynT`
/// tags, stored without its paired data address. The data address is
/// reconstructed separately through offsets and only then paired with this
/// table to dispatch a call.
#[derive(Clone, Copy, Debug)]
#[verifier::reject_recursive_types(DynT)]
pub struct RustVTable<DynT> {
    pub table: usize,
    pub resolves: PhantomData<DynT>,
}

impl<DynT> RustVTable<DynT> {
    /// The address of the identified method table.
    pub open spec fn table_addr(self) -> usize {
        self.table
    }

    /// Records the address of a method table.
    pub fn new(table: usize) -> (r: Self)
        ensures
            r.table_addr() == table,
    {
        RustVTable { table, resolves: PhantomData }
    }
}

/// The modeled byte distance from a `ChannelExtender`'s start to its
/// embedded foreign handle; strictly positive, as the offset discipline
/// demands of every nested field.
pub const CHANNEL_FIELD_OFFSET: usize = 8;

/// Embedded inside a host type to make it a foreign-dispatchable subtype.
/// Owns the foreign handle, records the byte offset from itself back to the
/// enclosing host object, and caches the dispatch table of the concrete host
/// type's capability implementation. Offset and table are computed once, at
/// construction, from the host type, and never change afterward.
pub struct ChannelExtender {
    cxx_channel: Channel,
    extender_offset: usize,
    rust_vtable: RustVTable<ChannelCapability>,
}

/// The interface a host type implements to stand as a foreign-dispatchable
/// subtype: access to its embedded extender, the layout and dispatch facts
/// the extender records at construction, and one method per foreign virtual
/// method. A method that does not override forwards to `ChannelDefaults` in
/// one line; an overriding method supplies a host-language body instead.
pub trait ChannelOverrides: Sized {
    /// The embedded extender, as the specification sees it.
    spec fn extender_view(&self) -> ChannelExtender;

    /// The host value with its embedded extender replaced.
    spec fn with_extender(self, e: ChannelExtender) -> Self;

    /// When the host's `a` may run.
    spec fn a_req(&self) -> bool;

    /// What the host's (possibly overriding) `a` does to the host.
    spec fn a_spec(pre: Self, post: Self) -> bool;

    /// What the host's (possibly overriding) `b` returns.
    spec fn b_spec(&self, r: i32) -> bool;

    /// The byte distance from the host object's start to its embedded
    /// extender field.
    spec fn extender_offset_spec() -> usize;

    /// The method table of this host type's capability implementation.
    spec fn dispatch_table_spec() -> RustVTable<ChannelCapability>;

    /// Replacing the extender stores exactly the given extender.
    proof fn extender_coherence(s: Self, e: ChannelExtender)
        ensures
            s.with_extender(e).extender_view() == e,
    ;

    /// The byte distance from the host object's start to its embedded
    /// extender field: strictly positive and able to carry a sign, as the
    /// offset discipline demands.
    fn extender_offset() -> (r: usize)
        ensures
            r == Self::extender_offset_spec(),
            0 < r <= isize::MAX,
    ;

    /// The method table of this host type's capability implementation.
    fn dispatch_table() -> (r: RustVTable<ChannelCapability>)
        ensures
            r == Self::dispatch_table_spec(),
    ;

    /// The embedded extender.
    fn extender(&self) -> (r: &ChannelExtender)
        ensures
            *r == self.extender_view(),
    ;

    /// The embedded extender, for mutation.
    fn extender_mut(&mut self) -> (r: &mut ChannelExtender)
        ensures
            *r == old(self).extender_view(),
            *final(self) == old(self).with_extender(*final(r)),
    ;

    /// The virtual method `a`, as this host resolves it.
    fn a(&mut self)
        requires
            old(self).a_req(),
        ensures
            Self::a_spec(*old(self), *final(self)),
    ;

    /// The virtual method `b`, as this host resolves it.
    fn b(&self) -> (r: i32)
        ensures
            self.b_spec(r),
    ;
}

impl ChannelExtender {
    /// The embedded foreign handle.
    pub closed spec fn channel(self) -> Channel {
        self.cxx_channel
    }

    /// The recorded byte distance from this extender back to the enclosing
    /// host object.
    pub closed spec fn extender_offset(self) -> usize {
        self.extender_offset
    }

    /// The cached dispatch table of the host type's capability
    /// implementation.
    pub closed spec fn rust_vtable(self) -> RustVTable<ChannelCapability> {
        self.rust_vtable
    }

    /// Well-formed: the recorded offset back to the host is strictly
    /// positive and able to carry a sign.
    pub open spec fn wf(self) -> bool {
        0 < self.extender_offset() <= isize::MAX
    }

    /// Constructs the extender for the host type `T`: a fresh foreign
    /// object built by the overriding constructor, the byte offset from the
    /// extender back to the enclosing `T`, and `T`'s dispatch table, all
    /// fixed here and never changed afterward.
    pub fn new<T: ChannelOverrides>() -> (r: ChannelExtender)
        ensures
            r.channel().rigged(),
            r.channel().base_value() == 0,
            r.channel().base_a_runs() == 0,
            !r.channel().destroyed(),
            r.extender_offset() == T::extender_offset_spec(),
            r.rust_vtable() == T::dispatch_table_spec(),
            r.wf(),
    {
        ChannelExtender {
            cxx_channel: Channel::construct_overridden(),
            extender_offset: T::extender_offset(),
            rust_vtable: T::dispatch_table(),
        }
    }

    /// The byte offset of the embedded handle within any extender, fixed by
    /// the extender's own layout.
    pub fn channel_offset() -> (r: FieldOffset<ChannelExtender, Channel>)
        ensures
            r.dist() == CHANNEL_FIELD_OFFSET,
            r.wf(),
    {
        FieldOffset::from_offset(CHANNEL_FIELD_OFFSET)
    }

    /// The recorded offset from this extender back to the enclosing host
    /// object, as an offset whose outer side is opaque: the extender does
    /// not know the host's type, only its distance.
    pub fn embedder_offset(&self) -> (r: FieldOffset<Opaque, ChannelExtender>)
        requires
            self.wf(),
        ensures
            r.dist() == self.extender_offset(),
            r.wf(),
    {
        FieldOffset::from_offset(self.extender_offset)
    }

    /// The embedded foreign handle, read through the extender as host code
    /// does.
    pub fn channel_ref(&self) -> (r: &Channel)
        ensures
            *r == self.channel(),
    {
        &self.cxx_channel
    }

    /// The embedded foreign handle, for mutation through the extender.
    pub fn channel_mut(&mut self) -> (r: &mut Channel)
        ensures
            *r == old(self).channel(),
            final(self).channel() == *final(r),
            final(self).extender_offset() == old(self).extender_offset(),
            final(self).rust_vtable() == old(self).rust_vtable(),
    {
        &mut self.cxx_channel
    }

    /// Teardown of the extender: runs the foreign destructor on the
    /// embedded handle exactly once, whether or not any foreign method was
    /// ever called.
    pub fn destroy(&mut self)
        requires
            !old(self).channel().destroyed(),
        ensures
            final(self).channel().destroyed(),
            final(self).channel().rigged() == old(self).channel().rigged(),
            final(self).channel().base_value() == old(self).channel().base_value(),
            final(self).channel().base_a_runs() == old(self).channel().base_a_runs(),
            final(self).extender_offset() == old(self).extender_offset(),
            final(self).rust_vtable() == old(self).rust_vtable(),
    {
        self.cxx_channel.destroy();
    }

    /// The address recovery a trampoline performs: from the address of the
    /// embedded handle, first outward to the extender by the extender's own
    /// layout, then outward to the enclosing host object by the recorded
    /// per-instance offset. The returned host address is what gets paired
    /// with the cached dispatch table into a polymorphic host reference, so
    /// this must only ever run on the handle address of this very extender
    /// instance: offset and table are per-instance state.
    pub fn dispatch(&self, channel_addr: usize) -> (r: usize)
        requires
            self.wf(),
            CHANNEL_FIELD_OFFSET + self.extender_offset() <= channel_addr,
        ensures
            r == channel_addr - CHANNEL_FIELD_OFFSET - self.extender_offset(),
    {
        let extender_addr = Self::channel_offset().to_outer(channel_addr);
        let host_addr = self.embedder_offset().to_outer(extender_addr);
        host_addr
    }
}

/// The safety argument behind `ChannelExtender::dispatch`: in a layout where
/// the host object starts at `host_addr`, its extender `extender_offset()`
/// bytes further, and the embedded handle `CHANNEL_FIELD_OFFSET` bytes into
/// the extender, recovery from the handle's address lands exactly on
/// `host_addr`.
pub proof fn lemma_dispatch_recovers_host(
    e: ChannelExtender,
    host_addr: usize,
    extender_addr: usize,
    channel_addr: usize,
)
    requires
        e.wf(),
        extender_addr == host_addr + e.extender_offset(),
        channel_addr == extender_addr + CHANNEL_FIELD_OFFSET,
    ensures
        channel_addr - CHANNEL_FIELD_OFFSET - e.extender_offset() == host_addr,
{
}

/// The dynamic-dispatch path for `a`, as the foreign runtime executes it on
/// an object built by the overriding constructor: the rigged vtable routes
/// the call into the `a` trampoline, which recovers the enclosing host
/// object from the handle's address (`ChannelExtender::dispatch`) and
/// invokes the host's capability method, overridden or defaulted.
pub fn virtual_a<T: ChannelOverrides>(host: &mut T)
    requires
        old(host).extender_view().channel().rigged(),
        old(host).a_req(),
    ensures
        T::a_spec(*old(host), *final(host)),
{
    host.a()
}

/// The dynamic-dispatch path for `b`, the counterpart of `virtual_a`.
pub fn virtual_b<T: ChannelOverrides>(host: &T) -> (r: i32)
    requires
        host.extender_view().channel().rigged(),
    ensures
        host.b_spec(r),
{
    host.b()
}

/// Teardown of a host object that embeds an extender: the foreign destructor
/// runs on the embedded handle exactly once, whether or not any foreign
/// method was ever called, and the rest of the host is untouched.
pub fn destroy_host<T: ChannelOverrides>(host: &mut T)
    requires
        !old(host).extender_view().channel().destroyed(),
    ensures
        *final(host) == old(host).with_extender(final(host).extender_view()),
        final(host).extender_view().channel().destroyed(),
        final(host).extender_view().channel().rigged() == old(host).extender_view().channel().rigged(),
        final(host).extender_view().channel().base_value() == old(host).extender_view().channel().base_value(),
        final(host).extender_view().channel().base_a_runs() == old(host).extender_view().channel().base_a_runs(),
        final(host).extender_view().extender_offset() == old(host).extender_view().extender_offset(),
        final(host).extender_view().rust_vtable() == old(host).extender_view().rust_vtable(),
{
    let e = host.extender_mut();
    e.destroy();
    proof {
        T::extender_coherence(*old(host), *final(e));
    }
}

} // verus!
