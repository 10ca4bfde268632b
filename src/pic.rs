//! The legacy programmable interrupt controller pair: claiming its ports,
//! the byte sequence that moves its vectors away from the CPU exceptions,
//! its mask bytes and its end-of-interrupt acknowledgement.
use vstd::prelude::*;
use crate::ports::{Port, PortAllocator};

verus! {

pub const PIC_MASTER_COMMAND: u16 = 0x20;
pub const PIC_MASTER_DATA: u16 = 0x21;
pub const PIC_SLAVE_COMMAND: u16 = 0xa0;
pub const PIC_SLAVE_DATA: u16 = 0xa1;

/// First initialization word: start initialization, a fourth word follows.
pub const ICW1_INIT: u8 = 0x11;
/// Third initialization word of the master: the slave sits on line 2.
pub const ICW3_MASTER: u8 = 0x04;
/// Third initialization word of the slave: its cascade identity.
pub const ICW3_SLAVE: u8 = 0x02;
/// Fourth initialization word: 8086/88 mode.
pub const ICW4_8086: u8 = 0x01;
/// The end-of-interrupt command.
pub const END_OF_INTERRUPT: u8 = 0x20;

/// First vector of the master's lines after remapping.
pub const PIC_MASTER_OFFSET: u8 = 0x20;
/// First vector of the slave's lines after remapping.
pub const PIC_SLAVE_OFFSET: u8 = 0x28;
/// The keyboard's interrupt line.
pub const KEYBOARD_IRQ: u8 = 1;
/// The master's line that the slave is wired to.
pub const CASCADE_IRQ: u8 = 2;

/// The four ports of the controller pair.
pub open spec fn pic_claimed(used: Seq<bool>) -> Seq<bool> {
    used.update(PIC_MASTER_COMMAND as int, true).update(PIC_MASTER_DATA as int, true).update(
        PIC_SLAVE_COMMAND as int,
        true,
    ).update(PIC_SLAVE_DATA as int, true)
}

/// The ports of the controller pair are all free in `used`.
pub open spec fn pic_ports_free(used: Seq<bool>) -> bool {
    &&& !used[PIC_MASTER_COMMAND as int]
    &&& !used[PIC_MASTER_DATA as int]
    &&& !used[PIC_SLAVE_COMMAND as int]
    &&& !used[PIC_SLAVE_DATA as int]
}

/// The first port of the pair that is claimed in `used`.
pub open spec fn first_taken(used: Seq<bool>) -> u16 {
    if used[PIC_MASTER_COMMAND as int] {
        PIC_MASTER_COMMAND
    } else if used[PIC_MASTER_DATA as int] {
        PIC_MASTER_DATA
    } else if used[PIC_SLAVE_COMMAND as int] {
        PIC_SLAVE_COMMAND
    } else {
        PIC_SLAVE_DATA
    }
}

/// Why the controller pair could not be claimed.
#[derive(Clone, Copy, Debug, PartialEq, Eq, Structural)]
pub enum PicError {
    /// This port was already claimed.
    PortTaken(u16),
}

/// The claimed ports of the controller pair.
pub struct Pic {
    master_command: Port,
    master_data: Port,
    slave_command: Port,
    slave_data: Port,
}

impl Pic {
    pub closed spec fn wf(&self) -> bool {
        &&& self.master_command@ == PIC_MASTER_COMMAND
        &&& self.master_data@ == PIC_MASTER_DATA
        &&& self.slave_command@ == PIC_SLAVE_COMMAND
        &&& self.slave_data@ == PIC_SLAVE_DATA
    }

    /// Claims the four ports. When one is taken, those claimed before it
    /// are released again and the table is left as it was.
    pub fn claim(palloc: &mut PortAllocator) -> (r: Result<Pic, PicError>)
        requires
            old(palloc).wf(),
        ensures
            final(palloc).wf(),
            r is Ok <==> pic_ports_free(old(palloc)@),
            r matches Ok(p) ==> p.wf() && final(palloc)@ == pic_claimed(old(palloc)@),
            r matches Err(e) ==> final(palloc)@ == old(palloc)@ && e == PicError::PortTaken(
                first_taken(old(palloc)@),
            ),
    {
        let ghost used = palloc@;
        let master_command = match palloc.allocate(PIC_MASTER_COMMAND) {
            Some(p) => p,
            None => return Err(PicError::PortTaken(PIC_MASTER_COMMAND)),
        };
        let master_data = match palloc.allocate(PIC_MASTER_DATA) {
            Some(p) => p,
            None => {
                palloc.release_port(master_command);
                assert(palloc@ =~= used);
                return Err(PicError::PortTaken(PIC_MASTER_DATA));
            },
        };
        let slave_command = match palloc.allocate(PIC_SLAVE_COMMAND) {
            Some(p) => p,
            None => {
                palloc.release_port(master_data);
                palloc.release_port(master_command);
                assert(palloc@ =~= used);
                return Err(PicError::PortTaken(PIC_SLAVE_COMMAND));
            },
        };
        let slave_data = match palloc.allocate(PIC_SLAVE_DATA) {
            Some(p) => p,
            None => {
                palloc.release_port(slave_command);
                palloc.release_port(master_data);
                palloc.release_port(master_command);
                assert(palloc@ =~= used);
                return Err(PicError::PortTaken(PIC_SLAVE_DATA));
            },
        };
        Ok(Pic { master_command, master_data, slave_command, slave_data })
    }

    /// The token for port `addr`, if it is one of the pair's.
    pub fn port(&self, addr: u16) -> (r: Option<&Port>)
        requires
            self.wf(),
        ensures
            r is Some <==> (addr == PIC_MASTER_COMMAND || addr == PIC_MASTER_DATA || addr
                == PIC_SLAVE_COMMAND || addr == PIC_SLAVE_DATA),
            r matches Some(p) ==> p@ == addr,
    {
        if addr == PIC_MASTER_COMMAND {
            Some(&self.master_command)
        } else if addr == PIC_MASTER_DATA {
            Some(&self.master_data)
        } else if addr == PIC_SLAVE_COMMAND {
            Some(&self.slave_command)
        } else if addr == PIC_SLAVE_DATA {
            Some(&self.slave_data)
        } else {
            None
        }
    }

    /// Hands the four ports back to the table.
    pub fn release(self, palloc: &mut PortAllocator)
        requires
            old(palloc).wf(),
            self.wf(),
        ensures
            final(palloc).wf(),
            final(palloc)@ == old(palloc)@.update(PIC_MASTER_COMMAND as int, false).update(
                PIC_MASTER_DATA as int,
                false,
            ).update(PIC_SLAVE_COMMAND as int, false).update(PIC_SLAVE_DATA as int, false),
    {
        palloc.release_port(self.master_command);
        palloc.release_port(self.master_data);
        palloc.release_port(self.slave_command);
        palloc.release_port(self.slave_data);
    }
}

/// The writes that reprogram the pair, in order: the initialization
/// command to both command ports, the vector offsets, the cascade
/// identities, 8086 mode, and last the mask bytes.
pub open spec fn init_sequence_spec(master_offset: u8, slave_offset: u8, master_mask: u8, slave_mask: u8) -> Seq<(u16, u8)> {
    seq![
        (PIC_MASTER_COMMAND, ICW1_INIT),
        (PIC_SLAVE_COMMAND, ICW1_INIT),
        (PIC_MASTER_DATA, master_offset),
        (PIC_SLAVE_DATA, slave_offset),
        (PIC_MASTER_DATA, ICW3_MASTER),
        (PIC_SLAVE_DATA, ICW3_SLAVE),
        (PIC_MASTER_DATA, ICW4_8086),
        (PIC_SLAVE_DATA, ICW4_8086),
        (PIC_MASTER_DATA, master_mask),
        (PIC_SLAVE_DATA, slave_mask),
    ]
}

/// The (port, byte) writes that reprogram the pair.
pub fn pic_init_sequence(master_offset: u8, slave_offset: u8, master_mask: u8, slave_mask: u8) -> (r: Vec<(u16, u8)>)
    ensures
        r@ == init_sequence_spec(master_offset, slave_offset, master_mask, slave_mask),
{
    let r = vec![
        (PIC_MASTER_COMMAND, ICW1_INIT),
        (PIC_SLAVE_COMMAND, ICW1_INIT),
        (PIC_MASTER_DATA, master_offset),
        (PIC_SLAVE_DATA, slave_offset),
        (PIC_MASTER_DATA, ICW3_MASTER),
        (PIC_SLAVE_DATA, ICW3_SLAVE),
        (PIC_MASTER_DATA, ICW4_8086),
        (PIC_SLAVE_DATA, ICW4_8086),
        (PIC_MASTER_DATA, master_mask),
        (PIC_SLAVE_DATA, slave_mask),
    ];
    assert(r@ =~= init_sequence_spec(master_offset, slave_offset, master_mask, slave_mask));
    r
}

/// The command ports that must get the end-of-interrupt command once line
/// `irq` has been serviced: the slave's too when the line is the slave's.
pub fn end_of_interrupt_ports(irq: u8) -> (r: Vec<u16>)
    requires
        irq < 16,
    ensures
        irq < 8 ==> r@ == seq![PIC_MASTER_COMMAND],
        irq >= 8 ==> r@ == seq![PIC_SLAVE_COMMAND, PIC_MASTER_COMMAND],
{
    let mut r: Vec<u16> = Vec::new();
    if irq >= 8 {
        r.push(PIC_SLAVE_COMMAND);
    }
    r.push(PIC_MASTER_COMMAND);
    proof {
        if irq >= 8 {
            assert(r@ =~= seq![PIC_SLAVE_COMMAND, PIC_MASTER_COMMAND]);
        } else {
            assert(r@ =~= seq![PIC_MASTER_COMMAND]);
        }
    }
    r
}

/// Bit `i` of mask byte `m` is set: line `i` is masked.
pub open spec fn mask_bit(m: u8, i: u8) -> bool {
    (m >> i) & 1 == 1
}

/// Some line of `lines` is line `l`.
pub open spec fn serves(lines: Seq<u8>, l: u8) -> bool {
    exists|k: int| 0 <= k < lines.len() && lines[k] == l
}

/// Some line of `lines` is one of the slave's.
pub open spec fn serves_slave(lines: Seq<u8>) -> bool {
    exists|k: int| 0 <= k < lines.len() && lines[k] >= 8
}

proof fn lemma_clear_bit(m: u8, q: u8, i: u8)
    requires
        q < 8,
        i < 8,
    ensures
        mask_bit(m & !(1u8 << q), i) == (mask_bit(m, i) && i != q),
{
    assert(mask_bit(m & !(1u8 << q), i) == (mask_bit(m, i) && i != q)) by (bit_vector)
        requires
            q < 8,
            i < 8,
    ;
}

/// The mask bytes of master and slave that leave exactly `lines` unmasked,
/// with the cascade line too when a slave line is among them.
pub fn irq_masks(lines: &[u8]) -> (r: (u8, u8))
    requires
        forall|k: int| 0 <= k < lines@.len() ==> #[trigger] lines@[k] < 16,
    ensures
        forall|i: u8|
            i < 8 ==> (#[trigger] mask_bit(r.0, i) <==> !(serves(lines@, i) || (i == CASCADE_IRQ
                && serves_slave(lines@)))),
        forall|i: u8| i < 8 ==> (#[trigger] mask_bit(r.1, i) <==> !serves(lines@, (i + 8) as u8)),
{
    let mut master: u8 = 0xff;
    let mut slave: u8 = 0xff;
    let mut k: usize = 0;
    proof {
        assert forall|i: u8| i < 8 implies #[trigger] mask_bit(0xffu8, i) by {
            assert(mask_bit(0xffu8, i)) by (bit_vector)
                requires
                    i < 8,
            ;
        }
    }
    while k < lines.len()
        invariant
            k <= lines@.len(),
            forall|j: int| 0 <= j < lines@.len() ==> #[trigger] lines@[j] < 16,
            forall|i: u8|
                i < 8 ==> (#[trigger] mask_bit(master, i) <==> !(serves(lines@.subrange(
                    0,
                    k as int,
                ), i) || (i == CASCADE_IRQ && serves_slave(lines@.subrange(0, k as int))))),
            forall|i: u8|
                i < 8 ==> (#[trigger] mask_bit(slave, i) <==> !serves(
                    lines@.subrange(0, k as int),
                    (i + 8) as u8,
                )),
        decreases lines@.len() - k,
    {
        let irq = lines[k];
        let ghost pre = lines@.subrange(0, k as int);
        let ghost post = lines@.subrange(0, k as int + 1);
        let ghost old_master = master;
        let ghost old_slave = slave;
        assert(post =~= pre.push(irq));
        if irq < 8 {
            master = master & !(1u8 << irq);
        } else {
            slave = slave & !(1u8 << (irq - 8));
            master = master & !(1u8 << CASCADE_IRQ);
        }
        proof {
            assert forall|l: u8| #[trigger] serves(post, l) == (serves(pre, l) || l == irq) by {
                if serves(post, l) {
                    let w = choose|w: int| 0 <= w < post.len() && post[w] == l;
                    if w < pre.len() {
                        assert(pre[w] == l);
                    }
                }
                if l == irq {
                    assert(post[pre.len() as int] == l);
                }
                if serves(pre, l) {
                    let w = choose|w: int| 0 <= w < pre.len() && pre[w] == l;
                    assert(post[w] == l);
                }
            }
            assert(serves_slave(post) == (serves_slave(pre) || irq >= 8)) by {
                if serves_slave(post) {
                    let w = choose|w: int| 0 <= w < post.len() && post[w] >= 8;
                    if w < pre.len() {
                        assert(pre[w] >= 8);
                    }
                }
                if irq >= 8 {
                    assert(post[pre.len() as int] >= 8);
                }
                if serves_slave(pre) {
                    let w = choose|w: int| 0 <= w < pre.len() && pre[w] >= 8;
                    assert(post[w] >= 8);
                }
            }
            assert forall|i: u8| i < 8 implies (#[trigger] mask_bit(master, i) <==> !(serves(
                post,
                i,
            ) || (i == CASCADE_IRQ && serves_slave(post)))) by {
                if irq < 8 {
                    lemma_clear_bit(old_master, irq, i);
                } else {
                    lemma_clear_bit(old_master, CASCADE_IRQ, i);
                }
            }
            assert forall|i: u8| i < 8 implies (#[trigger] mask_bit(slave, i) <==> !serves(
                post,
                (i + 8) as u8,
            )) by {
                if irq >= 8 {
                    lemma_clear_bit(old_slave, (irq - 8) as u8, i);
                }
            }
        }
        k = k + 1;
    }
    assert(lines@.subrange(0, k as int) =~= lines@);
    (master, slave)
}

} // verus!
