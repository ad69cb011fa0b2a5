//! Which I/O ports the machine holds.

use vstd::prelude::*;

verus! {

/// A run of I/O ports.
#[derive(Debug, Clone, Copy, PartialEq, Eq, Structural)]
pub struct PortBlock {
    pub base: u16,
    pub len: u16,
}

impl PortBlock {
    pub open spec fn holds(self, port: int) -> bool {
        self.base <= port < self.base + self.len
    }

    /// It holds a port, and none behind the last there is.
    pub open spec fn exists_in_space(self) -> bool {
        0 < self.len && self.base + self.len <= 0x1_0000
    }

    pub open spec fn apart_from(self, other: PortBlock) -> bool {
        self.base + self.len <= other.base || other.base + other.len <= self.base
    }
}

/// Why a block cannot be claimed.
#[derive(Debug, Clone, Copy, PartialEq, Eq, Structural)]
pub enum PortError {
    /// The block holds no port, or runs past the last one.
    OutOfSpace,
    /// Another claim holds one of the ports.
    Taken,
}

impl PortError {
    pub open spec fn spec_text(self) -> Seq<char> {
        match self {
            PortError::OutOfSpace => "the block is not inside the port space"@,
            PortError::Taken => "another block holds one of its ports"@,
        }
    }

    /// The error as an operator reads it.
    pub fn text(self) -> (r: &'static str)
        ensures
            r@ == self.spec_text(),
    {
        match self {
            PortError::OutOfSpace => "the block is not inside the port space",
            PortError::Taken => "another block holds one of its ports",
        }
    }
}

/// Whether some claim holds a port.
pub open spec fn held(claims: Seq<PortBlock>, port: int) -> bool {
    exists|i: int| 0 <= i < claims.len() && (#[trigger] claims[i]).holds(port)
}

/// Whether every claim is clear of `block`.
pub open spec fn clear_of(claims: Seq<PortBlock>, block: PortBlock) -> bool {
    forall|i: int| 0 <= i < claims.len() ==> (#[trigger] claims[i]).apart_from(block)
}

/// Why `block` cannot be claimed beside `claims`.
pub open spec fn claim_error(claims: Seq<PortBlock>, block: PortBlock) -> Option<PortError> {
    if !block.exists_in_space() {
        Some(PortError::OutOfSpace)
    } else if !clear_of(claims, block) {
        Some(PortError::Taken)
    } else {
        None
    }
}

/// No port is claimed twice.
pub open spec fn apart(claims: Seq<PortBlock>) -> bool {
    &&& forall|i: int| 0 <= i < claims.len() ==> (#[trigger] claims[i]).exists_in_space()
    &&& forall|i: int, j: int|
        0 <= i < j < claims.len() ==> (#[trigger] claims[i]).apart_from(#[trigger] claims[j])
}

/// Where the claim at `base` stands in a list, or the list's length.
pub open spec fn index_at(claims: Seq<PortBlock>, base: u16) -> int
    decreases claims.len(),
{
    if claims.len() == 0 || claims[0].base == base {
        0
    } else {
        1 + index_at(claims.skip(1), base)
    }
}

proof fn index_at_is(claims: Seq<PortBlock>, base: u16, i: int)
    requires
        0 <= i <= claims.len(),
        forall|k: int| 0 <= k < i ==> (#[trigger] claims[k]).base != base,
        i < claims.len() ==> claims[i].base == base,
    ensures
        index_at(claims, base) == i,
    decreases claims.len(),
{
    if claims.len() > 0 && i > 0 {
        assert(claims[0].base != base);
        assert forall|k: int| 0 <= k < i - 1 implies (#[trigger] claims.skip(1)[k]).base != base by {
            assert(claims[k + 1].base != base);
        }
        index_at_is(claims.skip(1), base, i - 1);
    }
}

/// The ports that devices answer.
pub struct PioBus {
    claims: Vec<PortBlock>,
}

impl View for PioBus {
    type V = Seq<PortBlock>;

    closed spec fn view(&self) -> Seq<PortBlock> {
        self.claims@
    }
}

impl PioBus {
    pub fn new() -> (r: Self)
        ensures
            r@ == Seq::<PortBlock>::empty(),
    {
        PioBus { claims: Vec::new() }
    }

    fn is_clear_of(&self, block: PortBlock) -> (r: bool)
        requires
            block.exists_in_space(),
        ensures
            r == clear_of(self@, block),
    {
        let mut i: usize = 0;
        while i < self.claims.len()
            invariant
                i <= self.claims@.len(),
                block.exists_in_space(),
                forall|k: int| 0 <= k < i ==> (#[trigger] self.claims@[k]).apart_from(block),
            decreases self.claims@.len() - i,
        {
            let c = self.claims[i];
            if !(c.base as u32 + c.len as u32 <= block.base as u32 || block.base as u32
                + block.len as u32 <= c.base as u32) {
                assert(!self.claims@[i as int].apart_from(block));
                return false;
            }
            i += 1;
        }
        true
    }

    /// Claim `len` ports from `base` up.
    pub fn register(&mut self, base: u16, len: u16) -> (r: Result<(), PortError>)
        ensures
            match r {
                Ok(()) => claim_error(old(self)@, PortBlock { base, len }) is None && final(self)@
                    == old(self)@.push(PortBlock { base, len }),
                Err(e) => claim_error(old(self)@, PortBlock { base, len }) == Some(e) && final(
                    self
                )@ == old(self)@,
            },
            apart(old(self)@) ==> apart(final(self)@),
    {
        let block = PortBlock { base, len };
        if len == 0 || base as u32 + len as u32 > 0x1_0000 {
            return Err(PortError::OutOfSpace);
        }
        if !self.is_clear_of(block) {
            return Err(PortError::Taken);
        }
        self.claims.push(block);
        Ok(())
    }

    /// Give up the claim that starts at `base`. False where there is none.
    pub fn unregister(&mut self, base: u16) -> (r: bool)
        ensures
            r == (index_at(old(self)@, base) < old(self)@.len()),
            final(self)@ == if r {
                old(self)@.remove(index_at(old(self)@, base))
            } else {
                old(self)@
            },
            apart(old(self)@) ==> apart(final(self)@),
    {
        let mut i: usize = 0;
        while i < self.claims.len()
            invariant
                i <= self.claims@.len(),
                *self == *old(self),
                forall|k: int| 0 <= k < i ==> (#[trigger] self.claims@[k]).base != base,
            decreases self.claims@.len() - i,
        {
            if self.claims[i].base == base {
                proof {
                    index_at_is(self@, base, i as int);
                }
                self.claims.remove(i);
                proof {
                    let o = old(self)@;
                    let n = self@;
                    assert(n =~= o.remove(i as int));
                    if apart(o) {
                        assert forall|a: int| 0 <= a < n.len() implies (
                        #[trigger] n[a]).exists_in_space() by {
                            assert(n[a] == o[if a < i {
                                a
                            } else {
                                a + 1
                            }]);
                        }
                        assert forall|a: int, b: int| 0 <= a < b < n.len() implies (
                        #[trigger] n[a]).apart_from(#[trigger] n[b]) by {
                            let x = if a < i {
                                a
                            } else {
                                a + 1
                            };
                            let y = if b < i {
                                b
                            } else {
                                b + 1
                            };
                            assert(n[a] == o[x] && n[b] == o[y]);
                        }
                    }
                }
                return true;
            }
            i += 1;
        }
        proof {
            index_at_is(self@, base, i as int);
        }
        false
    }

    /// Whether some device answers `port`.
    pub fn is_held(&self, port: u16) -> (r: bool)
        ensures
            r == held(self@, port as int),
    {
        let mut i: usize = 0;
        while i < self.claims.len()
            invariant
                i <= self.claims@.len(),
                forall|k: int| 0 <= k < i ==> !(#[trigger] self.claims@[k]).holds(port as int),
            decreases self.claims@.len() - i,
        {
            let c = self.claims[i];
            if c.base <= port && (port as u32) < c.base as u32 + c.len as u32 {
                assert(self@[i as int].holds(port as int));
                return true;
            }
            i += 1;
        }
        false
    }
}

/// A claim holds exactly its own ports beside those that were held, and what
/// a claim added, giving it up takes away again.
pub proof fn claim_can_be_given_back(claims: Seq<PortBlock>, block: PortBlock, port: int)
    requires
        apart(claims),
        claim_error(claims, block) is None,
    ensures
        held(claims.push(block), port) <==> held(claims, port) || block.holds(port),
        index_at(claims.push(block), block.base) == claims.len(),
        claims.push(block).remove(claims.len() as int) == claims,
{
    let n = claims.push(block);
    assert(n.remove(claims.len() as int) =~= claims);
    assert forall|k: int| 0 <= k < claims.len() implies (#[trigger] n[k]).base != block.base by {
        assert(claims[k].apart_from(block));
        assert(claims[k].exists_in_space());
    }
    index_at_is(n, block.base, claims.len() as int);
    if held(claims, port) {
        let i = choose|i: int| 0 <= i < claims.len() && (#[trigger] claims[i]).holds(port);
        assert(n[i].holds(port));
    }
    if block.holds(port) {
        assert(n[claims.len() as int].holds(port));
    }
    if held(n, port) {
        let i = choose|i: int| 0 <= i < n.len() && (#[trigger] n[i]).holds(port);
        if i < claims.len() {
            assert(claims[i].holds(port));
        }
    }
}

/// A block can be claimed exactly where it has a port, ends inside the port
/// space and nobody holds one of its ports. A block outside the space is
/// refused as such, and a held port otherwise.
pub proof fn claims_need_free_ports(claims: Seq<PortBlock>, block: PortBlock)
    requires
        apart(claims),
    ensures
        claim_error(claims, block) is None <==> 0 < block.len && block.base + block.len <= 0x1_0000
            && forall|port: int|
            block.base <= port < block.base + block.len ==> !#[trigger] held(claims, port),
        claim_error(claims, block) == Some(PortError::OutOfSpace) <==> block.len == 0 || block.base
            + block.len > 0x1_0000,
{
    let free = forall|port: int|
        block.base <= port < block.base + block.len ==> !#[trigger] held(claims, port);
    if 0 < block.len {
        if !clear_of(claims, block) {
            let i = choose|i: int|
                0 <= i < claims.len() && !(#[trigger] claims[i]).apart_from(block);
            let port = if claims[i].base >= block.base {
                claims[i].base as int
            } else {
                block.base as int
            };
            assert(claims[i].exists_in_space());
            assert(claims[i].holds(port));
            assert(held(claims, port));
        } else {
            assert forall|port: int|
                block.base <= port < block.base + block.len implies !#[trigger] held(claims, port) by {
                if held(claims, port) {
                    let i = choose|i: int|
                        0 <= i < claims.len() && (#[trigger] claims[i]).holds(port);
                    assert(claims[i].apart_from(block));
                }
            }
        }
    }
}

/// A claim is found again by its first port.
pub proof fn claims_are_found_by_base(claims: Seq<PortBlock>, i: int)
    requires
        apart(claims),
        0 <= i < claims.len(),
    ensures
        index_at(claims, claims[i].base) == i,
{
    assert forall|k: int| 0 <= k < i implies (#[trigger] claims[k]).base != claims[i].base by {
        assert(claims[k].apart_from(claims[i]));
        assert(claims[k].exists_in_space());
        assert(claims[i].exists_in_space());
    }
    index_at_is(claims, claims[i].base, i);
}

} // verus!
