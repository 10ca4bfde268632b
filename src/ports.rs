//! Ownership of the 65536 I/O port addresses: a port is claimed by at most
//! one holder at a time.
use vstd::prelude::*;

verus! {

/// Number of I/O port addresses.
pub const PORT_COUNT: usize = 0x10000;

/// A claim on port `port` of the ownership table `used`: the table
/// afterwards and whether the claim succeeded. It succeeds exactly when the
/// port was free, and then marks it claimed.
pub open spec fn claim_spec(used: Seq<bool>, port: u16) -> (Seq<bool>, bool) {
    if used[port as int] {
        (used, false)
    } else {
        (used.update(port as int, true), true)
    }
}

/// The table after port `port` is released.
pub open spec fn release_spec(used: Seq<bool>, port: u16) -> Seq<bool> {
    used.update(port as int, false)
}

/// The exclusive right to read and write one I/O port.
pub struct Port {
    addr: u16,
}

impl View for Port {
    type V = u16;

    closed spec fn view(&self) -> u16 {
        self.addr
    }
}

impl Port {
    /// The port address that this token is for.
    pub fn addr(&self) -> (r: u16)
        ensures
            r == self@,
    {
        self.addr
    }
}

/// The ownership table: one flag per port address, set while it is claimed.
pub struct PortAllocator {
    used: Vec<bool>,
}

impl View for PortAllocator {
    type V = Seq<bool>;

    closed spec fn view(&self) -> Seq<bool> {
        self.used@
    }
}

impl PortAllocator {
    /// The table of a well-formed allocator has one flag per port address.
    pub open spec fn wf(&self) -> bool {
        self@.len() == PORT_COUNT
    }

    /// A table in which no port is claimed.
    pub fn new() -> (r: PortAllocator)
        ensures
            r.wf(),
            forall|p: int| 0 <= p < PORT_COUNT ==> !#[trigger] r@[p],
    {
        let mut used: Vec<bool> = Vec::new();
        let mut i: usize = 0;
        while i < PORT_COUNT
            invariant
                i <= PORT_COUNT,
                used@.len() == i,
                forall|p: int| 0 <= p < i ==> !#[trigger] used@[p],
            decreases PORT_COUNT - i,
        {
            used.push(false);
            i = i + 1;
        }
        PortAllocator { used }
    }

    /// Whether port `port_id` is claimed.
    pub fn is_claimed(&self, port_id: u16) -> (r: bool)
        requires
            self.wf(),
        ensures
            r == self@[port_id as int],
    {
        self.used[port_id as usize]
    }

    /// Claims port `port_id`: a token for it when it was free, which marks
    /// it claimed; `None`, with the table unchanged, when it was claimed.
    pub fn allocate(&mut self, port_id: u16) -> (r: Option<Port>)
        requires
            old(self).wf(),
        ensures
            final(self).wf(),
            final(self)@ == claim_spec(old(self)@, port_id).0,
            r is Some == claim_spec(old(self)@, port_id).1,
            r matches Some(p) ==> p@ == port_id,
    {
        if self.used[port_id as usize] {
            return None;
        }
        self.used.set(port_id as usize, true);
        Some(Port { addr: port_id })
    }

    /// Marks port `port_id` free again.
    pub fn release(&mut self, port_id: u16)
        requires
            old(self).wf(),
        ensures
            final(self).wf(),
            final(self)@ == release_spec(old(self)@, port_id),
    {
        self.used.set(port_id as usize, false);
    }

    /// Gives a token back: its port is free again.
    pub fn release_port(&mut self, port: Port)
        requires
            old(self).wf(),
        ensures
            final(self).wf(),
            final(self)@ == release_spec(old(self)@, port@),
    {
        self.release(port.addr);
    }
}

/// Port exclusivity: once a port is claimed, claiming it again fails until
/// it is released, and after the release a claim succeeds. Other ports are
/// not touched.
pub proof fn lemma_port_exclusive(used: Seq<bool>, port: u16)
    requires
        used.len() == PORT_COUNT,
        !used[port as int],
    ensures
        claim_spec(used, port).1,
        !claim_spec(claim_spec(used, port).0, port).1,
        claim_spec(release_spec(claim_spec(used, port).0, port), port).1,
        forall|q: int|
            0 <= q < PORT_COUNT && q != port ==> #[trigger] claim_spec(used, port).0[q]
                == used[q],
{
}

} // verus!
