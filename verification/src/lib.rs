//! Extending a foreign, natively compiled base class from host code.
//!
//! The library verifies the bookkeeping that makes such an extension sound:
//! typed byte-offset arithmetic between an object and a field nested inside
//! it (`offset`), the extender that a host type embeds to become a
//! foreign-dispatchable subtype together with the capability trait and the
//! dynamic-dispatch model (`channel`), and a demonstration host type
//! (`session`). The foreign side itself is reachable only through its binary
//! layout and calling convention; the library models what the host can
//! observe of it as plain values and proves the offset and dispatch logic
//! over that model.

pub mod channel;
pub mod offset;
pub mod session;
