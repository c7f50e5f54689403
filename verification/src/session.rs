//! Per-session protocol state: the reusable receive buffer, the claimed
//! interface and endpoint, and the driver-reattach obligation.
//!
//! The unverified transport shell owns the device handle; this state drives
//! every decision the session makes (when a transfer's bytes may be parsed,
//! and whether teardown must reattach the OS driver).

use vstd::prelude::*;
use crate::descriptor::Selection;
use crate::error::Error;
use crate::packet::Controller;
use crate::packet::decoded_packet;
use vstd::array::array_as_slice;

verus! {

/// The single-byte activation command sent once per session on the OUT
/// endpoint during establishment: it instructs the adapter hardware to
/// begin streaming controller-state packets, without which no data is ever
/// produced.
pub const ACTIVATION_COMMAND: u8 = 0x13;

/// Mutable per-listener state. The claimed interface number and the IN
/// endpoint address never change for the life of the session; the 37-byte
/// receive buffer is reused on every read with no per-read allocation.
pub struct Session {
    buffer: [u8; 37],
    interface: u8,
    endpoint_in: u8,
    detached: bool,
    released: bool,
}

impl Session {
    /// The interface number claimed for this session.
    pub closed spec fn interface_spec(&self) -> u8 {
        self.interface
    }

    /// The address of the IN endpoint state packets arrive on.
    pub closed spec fn endpoint_in_spec(&self) -> u8 {
        self.endpoint_in
    }

    /// Whether an OS kernel driver was detached during establishment.
    pub closed spec fn detached_spec(&self) -> bool {
        self.detached
    }

    /// Whether this session has already been torn down.
    pub closed spec fn released_spec(&self) -> bool {
        self.released
    }

    /// The contents of the reusable receive buffer.
    pub closed spec fn buffer_spec(&self) -> Seq<u8> {
        self.buffer@
    }

    /// Whether tearing this session down must reattach the OS driver: a
    /// driver was detached during establishment and no teardown has run yet.
    pub open spec fn must_reattach(&self) -> bool {
        self.detached_spec() && !self.released_spec()
    }

    /// Builds the session state for a freshly established session: a zeroed
    /// receive buffer, the selected interface and IN endpoint, and the
    /// record of whether a kernel driver was detached on the way in.
    pub fn establish(sel: &Selection, driver_detached: bool) -> (s: Session)
        ensures
            s.interface_spec() == sel.interface_number,
            s.endpoint_in_spec() == sel.endpoint_in,
            s.detached_spec() == driver_detached,
            !s.released_spec(),
            s.buffer_spec() == Seq::new(37, |i: int| 0u8),
    {
        Session {
            buffer: [0u8; 37],
            interface: sel.interface_number,
            endpoint_in: sel.endpoint_in,
            detached: driver_detached,
            released: false,
        }
    }

    /// Returns the claimed interface number.
    pub fn interface(&self) -> (r: u8)
        ensures
            r == self.interface_spec(),
    {
        self.interface
    }

    /// Returns the IN endpoint address.
    pub fn endpoint_in(&self) -> (r: u8)
        ensures
            r == self.endpoint_in_spec(),
    {
        self.endpoint_in
    }

    /// Returns whether a kernel driver was detached during establishment.
    pub fn driver_detached(&self) -> (r: bool)
        ensures
            r == self.detached_spec(),
    {
        self.detached
    }

    /// Interprets one completed interrupt transfer: `data` is the raw
    /// transfer buffer and `len` the byte count the transfer reported.
    ///
    /// Exactly 37 reported bytes are stored in the session buffer and
    /// decoded into the four port snapshots; any other count is an
    /// `InvalidPacket` error and the bytes are never parsed. The teardown
    /// state (detach flag, released flag) is untouched either way, so a
    /// failed read never loses the reattach obligation.
    pub fn read_report(&mut self, data: &[u8; 37], len: usize) -> (r: Result<
        [Option<Controller>; 4],
        Error,
    >)
        ensures
            final(self).buffer_spec() == data@,
            final(self).interface_spec() == old(self).interface_spec(),
            final(self).endpoint_in_spec() == old(self).endpoint_in_spec(),
            final(self).detached_spec() == old(self).detached_spec(),
            final(self).released_spec() == old(self).released_spec(),
            len == 37 ==> (r matches Ok(ports) && ports@ == decoded_packet(data@)),
            len != 37 ==> r == Err::<[Option<Controller>; 4], Error>(Error::InvalidPacket),
    {
        self.buffer = *data;
        if len == 37 {
            Ok(Controller::parse_packet(array_as_slice(&self.buffer)))
        } else {
            Err(Error::InvalidPacket)
        }
    }

    /// Tears the session down, exactly once: returns whether the caller must
    /// reattach the OS kernel driver to the claimed interface, and marks the
    /// session released so no later teardown asks again.
    ///
    /// The reattach itself is I/O and is performed (best effort) by the
    /// caller; this decision is what guarantees it is attempted whenever a
    /// driver was detached, however the session ends.
    pub fn release(&mut self) -> (reattach: bool)
        ensures
            reattach == old(self).must_reattach(),
            final(self).released_spec(),
            final(self).detached_spec() == old(self).detached_spec(),
            final(self).interface_spec() == old(self).interface_spec(),
            final(self).endpoint_in_spec() == old(self).endpoint_in_spec(),
            final(self).buffer_spec() == old(self).buffer_spec(),
    {
        let r: bool = self.detached && !self.released;
        self.released = true;
        r
    }
}

/// Law: driver reattachment is asked for exactly once. A session that
/// detached a driver and has not yet been torn down demands reattachment;
/// once any session has been torn down it never demands it again, however it
/// reached that state (in particular after a failed read, which leaves the
/// detach and release state untouched).
pub proof fn lemma_reattach_exactly_once(before: Session, after: Session)
    requires
        after.released_spec(),
    ensures
        before.must_reattach() == (before.detached_spec() && !before.released_spec()),
        !after.must_reattach(),
{
}

} // verus!
