//! Guest physical memory.

use vstd::prelude::*;

verus! {

/// Guest memory as its readers see it: the ranges that are backed, and the
/// byte at each backed address.
pub ghost struct GuestMem {
    /// First address and length of each backed range.
    pub spans: Seq<(int, int)>,
    pub byte: Map<int, u8>,
}

impl GuestMem {
    /// Whether one backed range holds all of `gpa..gpa + len`.
    pub open spec fn maps(self, gpa: int, len: int) -> bool {
        exists|i: int|
            0 <= i < self.spans.len() && (#[trigger] self.spans[i]).0 <= gpa && gpa + len
                <= self.spans[i].0 + self.spans[i].1
    }

    /// Every address of a backed range holds a byte.
    pub open spec fn whole(self) -> bool {
        forall|i: int, a: int|
            0 <= i < self.spans.len() && (#[trigger] self.spans[i]).0 <= a < self.spans[i].0
                + self.spans[i].1 ==> #[trigger] self.byte.dom().contains(a)
    }

    /// The `len` bytes at `gpa`.
    pub open spec fn read(self, gpa: int, len: int) -> Seq<u8> {
        Seq::new(len as nat, |i: int| self.byte[gpa + i])
    }

    /// The memory with `data` at `gpa`.
    pub open spec fn write(self, gpa: int, data: Seq<u8>) -> GuestMem {
        GuestMem {
            spans: self.spans,
            byte: Map::new(
                |a: int| self.byte.dom().contains(a),
                |a: int|
                    if gpa <= a < gpa + data.len() {
                        data[a - gpa]
                    } else {
                        self.byte[a]
                    },
            ),
        }
    }

    /// The memory with `data` at `gpa` where that is backed, and unchanged
    /// where it is not.
    pub open spec fn store(self, gpa: int, data: Seq<u8>) -> GuestMem {
        if self.maps(gpa, data.len() as int) {
            self.write(gpa, data)
        } else {
            self
        }
    }
}

/// One backed range.
pub struct Region {
    pub base: u64,
    pub bytes: Vec<u8>,
}

/// The backed ranges of guest physical memory, which do not overlap.
pub struct PhysMap {
    regions: Vec<Region>,
}

/// Why a range cannot be backed.
#[derive(Debug, Clone, Copy, PartialEq, Eq, Structural)]
pub enum MapError {
    /// The range is empty or passes the end of the address space.
    Range,
    /// Another range holds part of it.
    Overlap,
}

impl MapError {
    pub open spec fn spec_text(self) -> Seq<char> {
        match self {
            MapError::Range => "the range is empty or runs off the address space"@,
            MapError::Overlap => "the range overlaps another"@,
        }
    }

    /// The error as an operator reads it.
    pub fn text(self) -> (r: &'static str)
        ensures
            r@ == self.spec_text(),
    {
        match self {
            MapError::Range => "the range is empty or runs off the address space",
            MapError::Overlap => "the range overlaps another",
        }
    }
}

pub open spec fn apart(a: Region, b: Region) -> bool {
    a.base + a.bytes@.len() <= b.base || b.base + b.bytes@.len() <= a.base
}

pub open spec fn holds(r: Region, a: int) -> bool {
    r.base <= a < r.base + r.bytes@.len()
}

impl View for PhysMap {
    type V = GuestMem;

    closed spec fn view(&self) -> GuestMem {
        GuestMem {
            spans: self.regions@.map_values(|r: Region| (r.base as int, r.bytes@.len() as int)),
            byte: Map::new(
                |a: int| exists|i: int| #[trigger] self.holds_at(i, a),
                |a: int| {
                    let i = choose|i: int| #[trigger] self.holds_at(i, a);
                    self.regions@[i].bytes@[a - self.regions@[i].base]
                },
            ),
        }
    }
}

impl PhysMap {
    spec fn holds_at(&self, i: int, a: int) -> bool {
        0 <= i < self.regions@.len() && holds(self.regions@[i], a)
    }

    /// Every range ends inside the address space, and no two overlap.
    pub closed spec fn wf(&self) -> bool {
        &&& forall|i: int|
            0 <= i < self.regions@.len() ==> (#[trigger] self.regions@[i]).base
                + self.regions@[i].bytes@.len() <= u64::MAX
        &&& forall|i: int, j: int|
            0 <= i < j < self.regions@.len() ==> apart(
                #[trigger] self.regions@[i],
                #[trigger] self.regions@[j],
            )
    }

    /// The byte at an address of region `i`.
    proof fn byte_of(&self, i: int, a: int)
        requires
            self.wf(),
            self.holds_at(i, a),
        ensures
            self@.byte.dom().contains(a),
            self@.byte[a] == self.regions@[i].bytes@[a - self.regions@[i].base],
    {
        let k = choose|k: int| #[trigger] self.holds_at(k, a);
        if k < i {
            assert(apart(self.regions@[k], self.regions@[i]));
        } else if i < k {
            assert(apart(self.regions@[i], self.regions@[k]));
        }
    }

    /// A backed range ends inside the address space, and every address in it
    /// holds a byte.
    pub proof fn maps_in_range(&self, gpa: int, len: int)
        requires
            self.wf(),
            self@.maps(gpa, len),
        ensures
            0 <= gpa,
            gpa + len <= u64::MAX,
            forall|a: int| gpa <= a < gpa + len ==> #[trigger] self@.byte.dom().contains(a),
    {
        let i = choose|i: int|
            0 <= i < self@.spans.len() && (#[trigger] self@.spans[i]).0 <= gpa && gpa + len
                <= self@.spans[i].0 + self@.spans[i].1;
        assert forall|a: int| gpa <= a < gpa + len implies #[trigger] self@.byte.dom().contains(
            a,
        ) by {
            assert(self.holds_at(i, a));
        }
    }

    /// The memory of a guest is whole: no backed range lacks a byte.
    pub proof fn is_whole(&self)
        requires
            self.wf(),
        ensures
            self@.whole(),
    {
        assert forall|i: int, a: int|
            0 <= i < self@.spans.len() && (#[trigger] self@.spans[i]).0 <= a < self@.spans[i].0
                + self@.spans[i].1 implies #[trigger] self@.byte.dom().contains(a) by {
            assert(self.holds_at(i, a));
        }
    }

    /// Memory with nothing backed.
    pub fn new() -> (m: PhysMap)
        ensures
            m.wf(),
            m@.spans == Seq::<(int, int)>::empty(),
            forall|a: int| !m@.byte.dom().contains(a),
            forall|gpa: int, len: int| !m@.maps(gpa, len),
    {
        let m = PhysMap { regions: Vec::new() };
        proof {
            assert(m@.spans =~= Seq::<(int, int)>::empty());
            assert forall|a: int| !m@.byte.dom().contains(a) by {
                assert(forall|i: int| !m.holds_at(i, a));
            }
        }
        m
    }

    /// Memory with one range of zeros at `base`.
    pub fn new_anon(base: u64, len: usize) -> (r: Result<PhysMap, MapError>)
        ensures
            match r {
                Ok(m) => m.wf() && m@ == zeroed(base as int, len as int),
                Err(e) => e == MapError::Range,
            },
            r.is_ok() <==> 0 < len && base + len <= u64::MAX,
    {
        let mut m = PhysMap::new();
        match m.add_region(base, len) {
            Ok(()) => {
                proof {
                    assert(m@.spans =~= zeroed(base as int, len as int).spans);
                    assert(m@.byte =~= zeroed(base as int, len as int).byte);
                }
                Ok(m)
            },
            Err(e) => Err(e),
        }
    }

    /// Back `base..base + len` with zeros.
    pub fn add_region(&mut self, base: u64, len: usize) -> (r: Result<(), MapError>)
        requires
            old(self).wf(),
        ensures
            final(self).wf(),
            r matches Err(_) ==> *final(self) == *old(self),
            r matches Err(e) ==> e == if len == 0 || base + len > u64::MAX {
                MapError::Range
            } else {
                MapError::Overlap
            },
            r.is_ok() <==> 0 < len && base + len <= u64::MAX && forall|i: int|
                0 <= i < old(self)@.spans.len() ==> {
                    let s = #[trigger] old(self)@.spans[i];
                    s.0 + s.1 <= base || base + len <= s.0
                },
            r.is_ok() ==> {
                &&& final(self)@.spans == old(self)@.spans.push((base as int, len as int))
                &&& final(self)@.byte == old(self)@.byte.union_prefer_right(
                    zeroed(base as int, len as int).byte,
                )
            },
    {
        if len == 0 || len as u64 > u64::MAX - base {
            return Err(MapError::Range);
        }
        let mut i: usize = 0;
        while i < self.regions.len()
            invariant
                i <= self.regions@.len(),
                self.wf(),
                *self == *old(self),
                0 < len,
                base + len <= u64::MAX,
                forall|k: int|
                    0 <= k < i ==> {
                        let r = #[trigger] self.regions@[k];
                        r.base + r.bytes@.len() <= base || base + len <= r.base
                    },
            decreases self.regions@.len() - i,
        {
            let r = &self.regions[i];
            let end: u64 = r.base + r.bytes.len() as u64;
            if !(end <= base || base + len as u64 <= r.base) {
                assert(self@.spans[i as int] == (
                    self.regions@[i as int].base as int,
                    self.regions@[i as int].bytes@.len() as int,
                ));
                return Err(MapError::Overlap);
            }
            i += 1;
        }
        let bytes: Vec<u8> = vec![0; len];
        assert(bytes@ =~= Seq::new(len as nat, |k: int| 0u8));
        self.regions.push(Region { base, bytes });
        proof {
            let m = *self;
            let o = *old(self);
            assert(m.regions@.drop_last() =~= o.regions@);
            assert(m.wf());
            assert(m@.spans =~= o@.spans.push((base as int, len as int)));
            let z = zeroed(base as int, len as int).byte;
            let u = o@.byte.union_prefer_right(z);
            let last = o.regions@.len() as int;
            assert forall|a: int| m@.byte.dom().contains(a) <==> u.dom().contains(a) by {
                if o@.byte.dom().contains(a) {
                    let k = choose|k: int| #[trigger] o.holds_at(k, a);
                    assert(m.holds_at(k, a));
                }
                if base <= a < base + len {
                    assert(m.holds_at(last, a));
                }
                if m@.byte.dom().contains(a) {
                    let k = choose|k: int| #[trigger] m.holds_at(k, a);
                    if k < last {
                        assert(o.holds_at(k, a));
                    }
                }
            }
            assert forall|a: int| m@.byte.dom().contains(a) implies m@.byte[a] == u[a] by {
                let k = choose|k: int| #[trigger] m.holds_at(k, a);
                m.byte_of(k, a);
                if k < last {
                    assert(o.holds_at(k, a));
                    o.byte_of(k, a);
                    assert(apart(m.regions@[k], m.regions@[last]));
                }
            }
            assert(m@.byte =~= u);
            assert forall|k: int| 0 <= k < o@.spans.len() implies {
                let s = #[trigger] o@.spans[k];
                s.0 + s.1 <= base || base + len <= s.0
            } by {
                assert(o.regions@[k] == m.regions@[k]);
            }
        }
        Ok(())
    }

    /// The region that holds all of `gpa..gpa + len`, if one does.
    fn lookup(&self, gpa: u64, len: usize) -> (r: Option<usize>)
        requires
            self.wf(),
        ensures
            match r {
                Some(i) => {
                    &&& i < self.regions@.len()
                    &&& self.regions@[i as int].base <= gpa
                    &&& gpa + len <= self.regions@[i as int].base
                        + self.regions@[i as int].bytes@.len()
                },
                None => true,
            },
            r.is_some() <==> self@.maps(gpa as int, len as int),
    {
        let mut i: usize = 0;
        while i < self.regions.len()
            invariant
                i <= self.regions@.len(),
                self.wf(),
                forall|k: int|
                    0 <= k < i ==> !((#[trigger] self.regions@[k]).base <= gpa && gpa + len
                        <= self.regions@[k].base + self.regions@[k].bytes@.len()),
            decreases self.regions@.len() - i,
        {
            let r = &self.regions[i];
            if r.base <= gpa {
                let skip: u64 = gpa - r.base;
                let size: usize = r.bytes.len();
                if skip <= size as u64 && len as u64 <= size as u64 - skip {
                    assert(self@.spans[i as int] == (
                        self.regions@[i as int].base as int,
                        self.regions@[i as int].bytes@.len() as int,
                    ));
                    return Some(i);
                }
            }
            i += 1;
        }
        proof {
            if self@.maps(gpa as int, len as int) {
                let k = choose|k: int|
                    0 <= k < self@.spans.len() && (#[trigger] self@.spans[k]).0 <= gpa && gpa + len
                        <= self@.spans[k].0 + self@.spans[k].1;
                assert(self.regions@[k].base <= gpa);
            }
        }
        None
    }

    /// Copy the `len` bytes at `gpa`, where they are backed.
    pub fn read_bytes(&self, gpa: u64, len: usize) -> (r: Option<Vec<u8>>)
        requires
            self.wf(),
        ensures
            r.is_some() <==> self@.maps(gpa as int, len as int),
            r matches Some(v) ==> v@ == self@.read(gpa as int, len as int),
    {
        match self.lookup(gpa, len) {
            Some(i) => {
                let r = &self.regions[i];
                let _size: usize = r.bytes.len();
                let from: usize = (gpa - r.base) as usize;
                let out = crate::bytes::sub_bytes(r.bytes.as_slice(), from, from + len);
                proof {
                    assert forall|k: int| 0 <= k < len implies out@[k] == self@.byte[gpa + k] by {
                        assert(self.holds_at(i as int, gpa + k));
                        self.byte_of(i as int, gpa + k);
                    }
                    assert(out@ =~= self@.read(gpa as int, len as int));
                }
                Some(out)
            },
            None => None,
        }
    }

    /// Store `data` at `gpa`, where that is backed.
    pub fn write_bytes(&mut self, gpa: u64, data: &[u8]) -> (ok: bool)
        requires
            old(self).wf(),
        ensures
            final(self).wf(),
            ok == old(self)@.maps(gpa as int, data@.len() as int),
            final(self)@ == old(self)@.store(gpa as int, data@),
    {
        let i: usize = match self.lookup(gpa, data.len()) {
            Some(i) => i,
            None => {
                return false;
            },
        };
        let _size: usize = self.regions[i].bytes.len();
        let from: usize = (gpa - self.regions[i].base) as usize;
        let ghost o = *self;
        let mut n: usize = 0;
        while n < data.len()
            invariant
                n <= data@.len(),
                i < o.regions@.len(),
                o.wf(),
                o.regions@[i as int].bytes@.len() <= usize::MAX,
                from == gpa - o.regions@[i as int].base,
                from + data@.len() <= o.regions@[i as int].bytes@.len(),
                self.regions@.len() == o.regions@.len(),
                forall|k: int|
                    0 <= k < o.regions@.len() && k != i ==> self.regions@[k] == o.regions@[k],
                self.regions@[i as int].base == o.regions@[i as int].base,
                self.regions@[i as int].bytes@.len() == o.regions@[i as int].bytes@.len(),
                forall|k: int|
                    0 <= k < o.regions@[i as int].bytes@.len()
                        ==> #[trigger] self.regions@[i as int].bytes@[k] == if from <= k < from
                        + n {
                        data@[k - from]
                    } else {
                        o.regions@[i as int].bytes@[k]
                    },
            decreases data@.len() - n,
        {
            self.regions[i].bytes[from + n] = data[n];
            n += 1;
        }
        proof {
            let m = *self;
            let w = o@.write(gpa as int, data@);
            assert forall|k: int| 0 <= k < m.regions@.len() implies (
            #[trigger] m.regions@[k]).base == o.regions@[k].base && m.regions@[k].bytes@.len()
                == o.regions@[k].bytes@.len() by {}
            assert(m.wf());
            assert(m@.spans =~= o@.spans);
            assert forall|a: int| m@.byte.dom().contains(a) <==> w.byte.dom().contains(a) by {
                if m@.byte.dom().contains(a) {
                    let k = choose|k: int| #[trigger] m.holds_at(k, a);
                    assert(o.holds_at(k, a));
                }
                if o@.byte.dom().contains(a) {
                    let k = choose|k: int| #[trigger] o.holds_at(k, a);
                    assert(m.holds_at(k, a));
                }
            }
            assert forall|a: int| m@.byte.dom().contains(a) implies m@.byte[a] == w.byte[a] by {
                let k = choose|k: int| #[trigger] m.holds_at(k, a);
                assert(o.holds_at(k, a));
                m.byte_of(k, a);
                o.byte_of(k, a);
                if gpa <= a < gpa + data@.len() && k != i {
                    if k < i {
                        assert(apart(o.regions@[k], o.regions@[i as int]));
                    } else {
                        assert(apart(o.regions@[i as int], o.regions@[k]));
                    }
                }
            }
            assert(m@.byte =~= w.byte);
        }
        true
    }
}

/// Memory whose one range holds zeros.
pub open spec fn zeroed(base: int, len: int) -> GuestMem {
    GuestMem {
        spans: seq![(base, len)],
        byte: Map::new(|a: int| base <= a < base + len, |a: int| 0u8),
    }
}

/// A backed range reads back what was stored in it.
pub proof fn read_after_write(m: PhysMap, gpa: int, data: Seq<u8>)
    requires
        m.wf(),
        m@.maps(gpa, data.len() as int),
    ensures
        m@.store(gpa, data).read(gpa, data.len() as int) == data,
{
    m.maps_in_range(gpa, data.len() as int);
    assert(m@.store(gpa, data).read(gpa, data.len() as int) =~= data);
}

/// A store leaves every byte outside its range as it was.
pub proof fn read_beside_write(m: PhysMap, gpa: int, data: Seq<u8>, at: int, len: nat)
    requires
        m.wf(),
        m@.maps(at, len as int),
        at + len <= gpa || gpa + data.len() <= at,
    ensures
        m@.store(gpa, data).read(at, len as int) == m@.read(at, len as int),
{
    m.maps_in_range(at, len as int);
    assert(m@.store(gpa, data).read(at, len as int) =~= m@.read(at, len as int));
}

/// Every part of a backed range is backed.
pub proof fn parts_of_a_range_are_backed(m: GuestMem, gpa: int, len: int, at: int, n: int)
    requires
        m.maps(gpa, len),
        gpa <= at,
        at + n <= gpa + len,
    ensures
        m.maps(at, n),
{
    let i = choose|i: int|
        0 <= i < m.spans.len() && (#[trigger] m.spans[i]).0 <= gpa && gpa + len <= m.spans[i].0
            + m.spans[i].1;
    assert(m.spans[i].0 <= at && at + n <= m.spans[i].0 + m.spans[i].1);
}

/// A store that is not backed changes nothing, and one that is changes the
/// bytes it names, each to its own value, and what is backed not at all.
pub proof fn stores_change_their_bytes(m: GuestMem, gpa: int, data: Seq<u8>, a: int)
    requires
        m.byte.dom().contains(a),
    ensures
        ({
            let after = m.store(gpa, data);
            let hit = m.maps(gpa, data.len() as int) && gpa <= a < gpa + data.len();
            &&& after.spans == m.spans
            &&& after.byte.dom().contains(a)
            &&& after.byte[a] == if hit {
                data[a - gpa]
            } else {
                m.byte[a]
            }
            &&& !m.maps(gpa, data.len() as int) ==> after == m
        }),
{
}

/// Fresh memory is one range of zeros.
pub proof fn fresh_memory_is_zero(base: int, len: int, at: int, n: int, i: int)
    requires
        0 <= i < n,
    ensures
        zeroed(base, len).maps(at, n) <==> base <= at && at + n <= base + len,
        zeroed(base, len).maps(at, n) ==> zeroed(base, len).read(at, n)[i] == 0,
{
    let m = zeroed(base, len);
    assert(m.spans[0] == (base, len));
}

} // verus!
