use vstd::prelude::*;
use vstd::slice::slice_subrange;
use std::collections::HashMap;
use std::collections::hash_map::Entry;
use crate::vm::VMError;

verus! {

/// Every address from here on belongs to the region the guest may write;
/// every address below is read-only to the guest.
pub const WRITEABLE_MEMORY: u32 = 0x80000000;

/// The bytes of one region.
#[derive(Default)]
pub struct BufferMemory {
    pub memory: Vec<u8>,
}

/// The memory of the machine: regions of up to 0x10000 bytes, each starting
/// at a multiple of 0x10000.
pub struct MemorySystem {
    map: HashMap<u32, BufferMemory>,
}

/// The start of the region that `address` falls into.
pub open spec fn region_base(address: u32) -> u32 {
    (address - address % 0x10000) as u32
}

/// The place of `address` within its region.
pub open spec fn region_offset(address: u32) -> int {
    (address % 0x10000) as int
}

/// The address of the last of `size` bytes that start at `address`. Addresses wrap at 2^32.
pub open spec fn last_address(address: u32, size: int) -> u32 {
    ((address + size - 1) % 0x1_0000_0000) as u32
}

/// Every region starts at a multiple of 0x10000 and holds no more than 0x10000 bytes.
pub open spec fn regions_wf(mem: Map<u32, Seq<u8>>) -> bool {
    forall|base: u32| #[trigger]
        mem.contains_key(base) ==> base % 0x10000 == 0 && mem[base].len() <= 0x10000
}

/// What a region holds when it is added: zeros, but for its first byte, which is 10.
pub open spec fn fresh_region(size: nat) -> Seq<u8> {
    Seq::new(
        size,
        |i: int|
            if i == 0 {
                10u8
            } else {
                0u8
            },
    )
}

/// The bytes from `address` to the end of its region, or why there are none:
/// no region holds the address, or the region ends before it.
pub open spec fn spec_memory(mem: Map<u32, Seq<u8>>, address: u32, write: bool) -> Result<
    Seq<u8>,
    VMError,
> {
    if !mem.contains_key(region_base(address)) {
        Err(VMError::ReadUnloadedMemory(address))
    } else if region_offset(address) >= mem[region_base(address)].len() {
        if write {
            Err(VMError::WroteBadMemory(address))
        } else {
            Err(VMError::ReadBadMemory(address))
        }
    } else {
        Ok(mem[region_base(address)].skip(region_offset(address)))
    }
}

/// The `size` bytes at `address`, or why there are none: as `spec_memory`,
/// or the region ends before the last of them, whose address the error then holds.
pub open spec fn spec_sized_memory(
    mem: Map<u32, Seq<u8>>,
    address: u32,
    size: int,
    write: bool,
) -> Result<Seq<u8>, VMError> {
    match spec_memory(mem, address, write) {
        Err(e) => Err(e),
        Ok(tail) => if tail.len() < size {
            if write {
                Err(VMError::WroteBadMemory(last_address(address, size)))
            } else {
                Err(VMError::ReadBadMemory(last_address(address, size)))
            }
        } else {
            Ok(tail.take(size))
        },
    }
}

/// The memory with `bytes` written at `address`, where they fit into the region.
pub open spec fn spec_store(mem: Map<u32, Seq<u8>>, address: u32, bytes: Seq<u8>) -> (
    Map<u32, Seq<u8>>,
    Result<(), VMError>,
) {
    match spec_sized_memory(mem, address, bytes.len() as int, true) {
        Err(e) => (mem, Err(e)),
        Ok(_) => (
            mem.insert(
                region_base(address),
                mem[region_base(address)].take(region_offset(address)) + bytes
                    + mem[region_base(address)].skip(region_offset(address) + bytes.len()),
            ),
            Ok(()),
        ),
    }
}

/// The memory after a set operation has written `bytes` at `address`, and
/// whether it could. A region that starts below `WRITEABLE_MEMORY` is
/// read-only: a set operation on an address there fails with the address
/// and writes nothing. Above, the bytes are stored where they fit into the region.
pub open spec fn spec_set(mem: Map<u32, Seq<u8>>, address: u32, bytes: Seq<u8>) -> (
    Map<u32, Seq<u8>>,
    Result<(), VMError>,
) {
    if address < WRITEABLE_MEMORY {
        (mem, Err(VMError::WroteReadOnlyMemory(address)))
    } else {
        spec_store(mem, address, bytes)
    }
}

/// Read-only regions are protected: a set operation on an address in a
/// region that starts below `WRITEABLE_MEMORY` fails with
/// `WroteReadOnlyMemory` and the address, and memory stays as it is.
pub proof fn lemma_read_only_regions(mem: Map<u32, Seq<u8>>, address: u32, bytes: Seq<u8>)
    requires
        region_base(address) < WRITEABLE_MEMORY,
    ensures
        spec_set(mem, address, bytes) == (
            mem,
            Err::<(), VMError>(VMError::WroteReadOnlyMemory(address)),
        ),
{
}

/// The number that `bytes` hold, the least significant byte first.
pub open spec fn le_value(bytes: Seq<u8>) -> int
    decreases bytes.len(),
{
    if bytes.len() == 0 {
        0
    } else {
        bytes[0] + 0x100 * le_value(bytes.skip(1))
    }
}

/// The `n` low bytes of `v`, the least significant first.
pub open spec fn le_bytes(v: int, n: nat) -> Seq<u8>
    decreases n,
{
    if n == 0 {
        Seq::empty()
    } else {
        seq![(v % 0x100) as u8] + le_bytes(v / 0x100, (n - 1) as nat)
    }
}

/// The number of `size` bytes that memory holds at `address`.
pub open spec fn spec_load(mem: Map<u32, Seq<u8>>, address: u32, size: int) -> Result<
    int,
    VMError,
> {
    match spec_sized_memory(mem, address, size, false) {
        Err(e) => Err(e),
        Ok(bytes) => Ok(le_value(bytes)),
    }
}

/// The value of two, four and eight bytes, written out.
pub proof fn lemma_le_value(b: Seq<u8>)
    ensures
        b.len() == 1 ==> le_value(b) == b[0],
        b.len() == 2 ==> le_value(b) == b[0] + 0x100 * b[1],
        b.len() == 4 ==> le_value(b) == b[0] + 0x100 * b[1] + 0x1_0000 * b[2] + 0x100_0000 * b[3],
        b.len() == 8 ==> le_value(b) == b[0] + 0x100 * b[1] + 0x1_0000 * b[2] + 0x100_0000 * b[3]
            + 0x1_0000_0000 * b[4] + 0x100_0000_0000 * b[5] + 0x1_0000_0000_0000 * b[6]
            + 0x100_0000_0000_0000 * b[7],
        b.len() <= 8 ==> 0 <= le_value(b),
{
    reveal_with_fuel(le_value, 10);
    if b.len() >= 1 {
        let b1 = b.skip(1);
        if b.len() >= 2 {
            let b2 = b1.skip(1);
            if b.len() >= 3 {
                let b3 = b2.skip(1);
                if b.len() >= 4 {
                    let b4 = b3.skip(1);
                    if b.len() >= 5 {
                        let b5 = b4.skip(1);
                        if b.len() >= 6 {
                            let b6 = b5.skip(1);
                            if b.len() >= 7 {
                                let b7 = b6.skip(1);
                                if b.len() >= 8 {
                                    let b8 = b7.skip(1);
                                    assert(b.len() == 8 ==> b8.len() == 0);
                                }
                            }
                        }
                    }
                }
            }
        }
    }
}

/// The bytes of a value of one, two, four and eight bytes, written out.
pub proof fn lemma_le_bytes(v: int)
    ensures
        le_bytes(v, 1) =~= seq![(v % 0x100) as u8],
        le_bytes(v, 2) =~= seq![(v % 0x100) as u8, (v / 0x100 % 0x100) as u8],
        le_bytes(v, 4) =~= seq![
            (v % 0x100) as u8,
            (v / 0x100 % 0x100) as u8,
            (v / 0x1_0000 % 0x100) as u8,
            (v / 0x100_0000 % 0x100) as u8,
        ],
        le_bytes(v, 8) =~= seq![
            (v % 0x100) as u8,
            (v / 0x100 % 0x100) as u8,
            (v / 0x1_0000 % 0x100) as u8,
            (v / 0x100_0000 % 0x100) as u8,
            (v / 0x1_0000_0000 % 0x100) as u8,
            (v / 0x100_0000_0000 % 0x100) as u8,
            (v / 0x1_0000_0000_0000 % 0x100) as u8,
            (v / 0x100_0000_0000_0000 % 0x100) as u8,
        ],
        le_bytes(v, 1).len() == 1,
        le_bytes(v, 2).len() == 2,
        le_bytes(v, 4).len() == 4,
        le_bytes(v, 8).len() == 8,
{
    reveal_with_fuel(le_bytes, 10);
    assert(v / 0x100 / 0x100 == v / 0x1_0000);
    assert(v / 0x100 / 0x100 / 0x100 == v / 0x100_0000);
    assert(v / 0x100 / 0x100 / 0x100 / 0x100 == v / 0x1_0000_0000);
    assert(v / 0x100 / 0x100 / 0x100 / 0x100 / 0x100 == v / 0x100_0000_0000);
    assert(v / 0x100 / 0x100 / 0x100 / 0x100 / 0x100 / 0x100 == v / 0x1_0000_0000_0000);
    assert(v / 0x100 / 0x100 / 0x100 / 0x100 / 0x100 / 0x100 / 0x100 == v / 0x100_0000_0000_0000);
}

/// The bytes of a number give the number back: for a number below 256 to
/// the power of `n`, the `n` bytes that `le_bytes` takes it apart into hold
/// that number.
#[verifier::rlimit(30)]
pub proof fn lemma_le_round_trip(v: int, n: nat)
    requires
        0 <= v,
        n == 1 ==> v < 0x100,
        n == 2 ==> v < 0x1_0000,
        n == 4 ==> v < 0x1_0000_0000,
        n == 8 ==> v < 0x1_0000_0000_0000_0000,
        n == 1 || n == 2 || n == 4 || n == 8,
    ensures
        le_value(le_bytes(v, n)) == v,
        le_bytes(v, n).len() == n,
{
    lemma_le_bytes(v);
    lemma_le_value(le_bytes(v, n));
    let v1 = v / 0x100;
    let v2 = v / 0x1_0000;
    let v3 = v / 0x100_0000;
    let v4 = v / 0x1_0000_0000;
    let v5 = v / 0x100_0000_0000;
    let v6 = v / 0x1_0000_0000_0000;
    let v7 = v / 0x100_0000_0000_0000;
    assert(v == v1 * 0x100 + v % 0x100);
    assert(v1 == v2 * 0x100 + v1 % 0x100) by {
        assert(v1 / 0x100 == v2);
    }
    assert(v2 == v3 * 0x100 + v2 % 0x100) by {
        assert(v2 / 0x100 == v3);
    }
    assert(v3 == v4 * 0x100 + v3 % 0x100) by {
        assert(v3 / 0x100 == v4);
    }
    assert(v4 == v5 * 0x100 + v4 % 0x100) by {
        assert(v4 / 0x100 == v5);
    }
    assert(v5 == v6 * 0x100 + v5 % 0x100) by {
        assert(v5 / 0x100 == v6);
    }
    assert(v6 == v7 * 0x100 + v6 % 0x100) by {
        assert(v6 / 0x100 == v7);
    }
    if n == 1 {
        assert(v1 == 0);
    } else if n == 2 {
        assert(v2 == 0);
    } else if n == 4 {
        assert(v4 == 0);
    } else {
        assert(v7 < 0x100);
    }
}

/// Memory keeps what is stored in it, the least significant byte first.
/// After the `n` low bytes of `v` were stored at `address`, where `n` is
/// 1, 2, 4 or 8, the `n` bytes at `address` are those bytes: the byte at
/// `address` is `v % 256`, the one after it `v / 256 % 256`, and so on;
/// and loading `n` bytes at `address` gives `v` back.
#[verifier::rlimit(30)]
pub proof fn lemma_store_then_load(mem: Map<u32, Seq<u8>>, address: u32, v: int, n: nat)
    requires
        0 <= v,
        n == 1 ==> v < 0x100,
        n == 2 ==> v < 0x1_0000,
        n == 4 ==> v < 0x1_0000_0000,
        n == 8 ==> v < 0x1_0000_0000_0000_0000,
        n == 1 || n == 2 || n == 4 || n == 8,
        spec_store(mem, address, le_bytes(v, n)).1 is Ok,
    ensures
        spec_sized_memory(spec_store(mem, address, le_bytes(v, n)).0, address, n as int, false)
            == Ok::<Seq<u8>, VMError>(le_bytes(v, n)),
        spec_load(spec_store(mem, address, le_bytes(v, n)).0, address, n as int) == Ok::<
            int,
            VMError,
        >(v),
        forall|i: int|
            0 <= i < n ==> #[trigger] le_bytes(v, n)[i] == ((v / pow256(i)) % 0x100) as u8,
{
    lemma_le_round_trip(v, n);
    lemma_le_bytes(v);
    let bytes = le_bytes(v, n);
    let base = region_base(address);
    let offset = region_offset(address);
    let region = mem[base];
    let stored = region.take(offset) + bytes + region.skip(offset + bytes.len());
    assert(stored.skip(offset).take(n as int) =~= bytes);
}

/// What a set operation has written, a get operation reads. A set
/// operation of the `n` low bytes of `v` succeeds only at a writeable
/// address; after it the `n` bytes at `address` are those bytes, the least
/// significant first, and loading `n` bytes at `address` gives `v` back.
pub proof fn lemma_set_then_get(mem: Map<u32, Seq<u8>>, address: u32, v: int, n: nat)
    requires
        0 <= v,
        n == 1 ==> v < 0x100,
        n == 2 ==> v < 0x1_0000,
        n == 4 ==> v < 0x1_0000_0000,
        n == 8 ==> v < 0x1_0000_0000_0000_0000,
        n == 1 || n == 2 || n == 4 || n == 8,
        spec_set(mem, address, le_bytes(v, n)).1 is Ok,
    ensures
        address >= WRITEABLE_MEMORY,
        spec_sized_memory(spec_set(mem, address, le_bytes(v, n)).0, address, n as int, false)
            == Ok::<Seq<u8>, VMError>(le_bytes(v, n)),
        spec_load(spec_set(mem, address, le_bytes(v, n)).0, address, n as int) == Ok::<
            int,
            VMError,
        >(v),
        forall|i: int|
            0 <= i < n ==> #[trigger] le_bytes(v, n)[i] == ((v / pow256(i)) % 0x100) as u8,
{
    lemma_store_then_load(mem, address, v, n);
}

/// 256 to the power of `i`, for the eight bytes of a quadruple word.
pub open spec fn pow256(i: int) -> int {
    if i <= 0 {
        1
    } else if i == 1 {
        0x100
    } else if i == 2 {
        0x1_0000
    } else if i == 3 {
        0x100_0000
    } else if i == 4 {
        0x1_0000_0000
    } else if i == 5 {
        0x100_0000_0000
    } else if i == 6 {
        0x1_0000_0000_0000
    } else {
        0x100_0000_0000_0000
    }
}

/// Well-formed memory stays well-formed when a region that starts at a
/// multiple of 0x10000 is added or replaced by no more than 0x10000 bytes.
pub proof fn lemma_region_keeps_wf(mem: Map<u32, Seq<u8>>, base: u32)
    requires
        regions_wf(mem),
        base % 0x10000 == 0,
    ensures
        forall|region: Seq<u8>|
            region.len() <= 0x10000 ==> regions_wf(#[trigger] mem.insert(base, region)),
{
    assert forall|region: Seq<u8>| region.len() <= 0x10000 implies regions_wf(
        #[trigger] mem.insert(base, region),
    ) by {
        assert forall|b: u32| #[trigger]
            mem.insert(base, region).contains_key(b) implies b % 0x10000 == 0 && mem.insert(
            base,
            region,
        )[b].len() <= 0x10000 by {
            if b != base {
                assert(mem.contains_key(b));
            }
        }
    }
}

impl Default for MemorySystem {
    fn default() -> (r: MemorySystem)
        ensures
            r@ == Map::<u32, Seq<u8>>::empty(),
    {
        let r = MemorySystem { map: HashMap::new() };
        assert(r@ =~= Map::<u32, Seq<u8>>::empty());
        r
    }
}

impl MemorySystem {
    /// The regions by their start, each with its bytes.
    pub closed spec fn view(&self) -> Map<u32, Seq<u8>> {
        Map::new(|k: u32| self.map@.contains_key(k), |k: u32| self.map@[k].memory@)
    }

    /// Adds a region of `size` bytes at `address`, which must be a multiple of
    /// 0x10000 at which no region is yet, and hands out its bytes.
    pub fn add_memory(&mut self, address: u32, size: u32) -> (r: Result<&mut [u8], VMError>)
        requires
            size <= 0x10000,
        ensures
            match r {
                Ok(s) => {
                    &&& address % 0x10000 == 0
                    &&& !old(self)@.contains_key(address)
                    &&& s@ == fresh_region(size as nat)
                    &&& final(self)@ == old(self)@.insert(address, final(s)@)
                    &&& regions_wf(old(self)@) && final(s)@.len() == s@.len() ==> regions_wf(
                        old(self)@.insert(address, final(s)@),
                    )
                },
                Err(e) => {
                    &&& final(self)@ == old(self)@
                    &&& e == if address % 0x10000 != 0 {
                        VMError::UnalignedMemoryAddition
                    } else {
                        VMError::ConflictingMemoryAddition
                    }
                    &&& address % 0x10000 != 0 || old(self)@.contains_key(address)
                },
            },
    {
        if address % 0x10000 != 0 {
            return Err(VMError::UnalignedMemoryAddition);
        }
        if self.map.contains_key(&address) {
            return Err(VMError::ConflictingMemoryAddition);
        }
        let mut b = BufferMemory { memory: Vec::new() };
        b.memory.resize(size as usize, 0);
        if size > 0 {
            b.memory[0] = 10;
        }
        assert(b.memory@ =~= fresh_region(size as nat));
        match self.map.entry(address) {
            Entry::Occupied(_e) => Err(VMError::ConflictingMemoryAddition),
            Entry::Vacant(e) => {
                let inserted = e.insert(b);
                let bytes = inserted.memory.as_mut_slice();
                proof {
                    if regions_wf(old(self)@) {
                        lemma_region_keeps_wf(old(self)@, address);
                    }
                }
                Ok(bytes)
            },
        }
    }

    /// The bytes from `address` to the end of its region, for writing. This
    /// is the loader's access: it writes below `WRITEABLE_MEMORY` too.
    pub fn get_mut_memory(&mut self, address: u32) -> (r: Result<&mut [u8], VMError>)
        ensures
            match r {
                Ok(s) => {
                    &&& spec_memory(old(self)@, address, true) == Ok::<Seq<u8>, VMError>(s@)
                    &&& final(self)@ == old(self)@.insert(
                        region_base(address),
                        old(self)@[region_base(address)].take(region_offset(address)) + final(s)@,
                    )
                    &&& regions_wf(old(self)@) && final(s)@.len() == s@.len() ==> regions_wf(
                        old(self)@.insert(
                            region_base(address),
                            old(self)@[region_base(address)].take(region_offset(address)) + final(s)@,
                        ),
                    )
                },
                Err(e) => {
                    &&& spec_memory(old(self)@, address, true) == Err::<Seq<u8>, VMError>(e)
                    &&& final(self)@ == old(self)@
                },
            },
    {
        let base: u32 = address - address % 0x10000;
        let local: usize = (address % 0x10000) as usize;
        match self.map.get(&base) {
            None => {
                return Err(VMError::ReadUnloadedMemory(address));
            },
            Some(m) => {
                if local >= m.memory.len() {
                    return Err(VMError::WroteBadMemory(address));
                }
            },
        }
        match self.map.entry(base) {
            Entry::Vacant(_e) => Err(VMError::ReadUnloadedMemory(address)),
            Entry::Occupied(e) => {
                let m = e.into_mut();
                let (_head, tail) = m.memory.as_mut_slice().split_at_mut(local);
                proof {
                    if regions_wf(old(self)@) {
                        assert(old(self)@.contains_key(base));
                        lemma_region_keeps_wf(old(self)@, base);
                    }
                }
                Ok(tail)
            },
        }
    }

    /// The bytes from `address` to the end of its region.
    pub fn get_memory(&self, address: u32) -> (r: Result<&[u8], VMError>)
        ensures
            match r {
                Ok(s) => spec_memory(self@, address, false) == Ok::<Seq<u8>, VMError>(s@),
                Err(e) => spec_memory(self@, address, false) == Err::<Seq<u8>, VMError>(e),
            },
    {
        let base: u32 = address - address % 0x10000;
        let local: usize = (address % 0x10000) as usize;
        match self.map.get(&base) {
            None => Err(VMError::ReadUnloadedMemory(address)),
            Some(m) => {
                if local >= m.memory.len() {
                    return Err(VMError::ReadBadMemory(address));
                }
                Ok(slice_subrange(m.memory.as_slice(), local, m.memory.len()))
            },
        }
    }

    /// The `size` bytes at `address`, which must all lie in one region.
    pub fn get_sized_memory(&self, address: u32, size: u32) -> (r: Result<&[u8], VMError>)
        ensures
            match r {
                Ok(s) => spec_sized_memory(self@, address, size as int, false) == Ok::<
                    Seq<u8>,
                    VMError,
                >(s@),
                Err(e) => spec_sized_memory(self@, address, size as int, false) == Err::<
                    Seq<u8>,
                    VMError,
                >(e),
            },
    {
        let m = self.get_memory(address)?;
        if m.len() < size as usize {
            return Err(VMError::ReadBadMemory(address.wrapping_add(size).wrapping_sub(1)));
        }
        Ok(slice_subrange(m, 0, size as usize))
    }

    /// The `size` bytes at `address`, which must all lie in one region, for
    /// writing. This is the loader's access: it writes below `WRITEABLE_MEMORY` too.
    #[verifier::rlimit(30)]
    pub fn get_mut_sized_memory(&mut self, address: u32, size: u32) -> (r: Result<
        &mut [u8],
        VMError,
    >)
        ensures
            match r {
                Ok(s) => {
                    &&& spec_sized_memory(old(self)@, address, size as int, true) == Ok::<
                        Seq<u8>,
                        VMError,
                    >(s@)
                    &&& final(self)@ == old(self)@.insert(
                        region_base(address),
                        old(self)@[region_base(address)].take(region_offset(address)) + final(s)@
                            + old(self)@[region_base(address)].skip(region_offset(address) + size),
                    )
                    &&& regions_wf(old(self)@) && final(s)@.len() == s@.len() ==> regions_wf(
                        old(self)@.insert(
                            region_base(address),
                            old(self)@[region_base(address)].take(region_offset(address)) + final(s)@ + old(self)@[region_base(address)].skip(
                                region_offset(address) + size,
                            ),
                        ),
                    )
                },
                Err(e) => {
                    &&& spec_sized_memory(old(self)@, address, size as int, true) == Err::<
                        Seq<u8>,
                        VMError,
                    >(e)
                    &&& final(self)@ == old(self)@
                },
            },
    {
        match self.get_memory(address) {
            Err(VMError::ReadBadMemory(a)) => {
                return Err(VMError::WroteBadMemory(a));
            },
            Err(e) => {
                return Err(e);
            },
            Ok(m) => {
                if m.len() < size as usize {
                    return Err(VMError::WroteBadMemory(address.wrapping_add(size).wrapping_sub(1)));
                }
            },
        }
        let ghost region = self@[region_base(address)];
        let ghost offset = region_offset(address);
        match self.get_mut_memory(address) {
            Err(e) => Err(e),
            Ok(m) => {
                let (head, _tail) = m.split_at_mut(size as usize);
                proof {
                    assert(region.skip(offset).subrange(size as int, region.len() - offset)
                        =~= region.skip(offset + size));
                    assert(region.take(offset) + (final(head)@ + region.skip(offset + size))
                        =~= region.take(offset) + final(head)@ + region.skip(offset + size));
                    if regions_wf(old(self)@) {
                        assert(old(self)@.contains_key(region_base(address)));
                        lemma_region_keeps_wf(old(self)@, region_base(address));
                    }
                }
                Ok(head)
            },
        }
    }

    /// The byte at `address`.
    pub fn get_u8(&self, address: u32) -> (r: Result<u8, VMError>)
        ensures
            match r {
                Ok(v) => spec_load(self@, address, 1) == Ok::<int, VMError>(v as int),
                Err(e) => spec_load(self@, address, 1) == Err::<int, VMError>(e),
            },
    {
        let m = self.get_sized_memory(address, 1)?;
        proof {
            lemma_le_value(m@);
        }
        Ok(m[0])
    }

    /// The word at `address`, its low byte first.
    pub fn get_u16(&self, address: u32) -> (r: Result<u16, VMError>)
        ensures
            match r {
                Ok(v) => spec_load(self@, address, 2) == Ok::<int, VMError>(v as int),
                Err(e) => spec_load(self@, address, 2) == Err::<int, VMError>(e),
            },
    {
        let m = self.get_sized_memory(address, 2)?;
        proof {
            lemma_le_value(m@);
        }
        Ok(m[0] as u16 + 0x100 * (m[1] as u16))
    }

    /// The double word at `address`, its low byte first.
    pub fn get_u32(&self, address: u32) -> (r: Result<u32, VMError>)
        ensures
            match r {
                Ok(v) => spec_load(self@, address, 4) == Ok::<int, VMError>(v as int),
                Err(e) => spec_load(self@, address, 4) == Err::<int, VMError>(e),
            },
    {
        let m = self.get_sized_memory(address, 4)?;
        proof {
            lemma_le_value(m@);
        }
        Ok(m[0] as u32 + 0x100 * (m[1] as u32) + 0x1_0000 * (m[2] as u32) + 0x100_0000 * (m[3] as u32))
    }

    /// The quadruple word at `address`, its low byte first.
    pub fn get_u64(&self, address: u32) -> (r: Result<u64, VMError>)
        ensures
            match r {
                Ok(v) => spec_load(self@, address, 8) == Ok::<int, VMError>(v as int),
                Err(e) => spec_load(self@, address, 8) == Err::<int, VMError>(e),
            },
    {
        let m = self.get_sized_memory(address, 8)?;
        proof {
            lemma_le_value(m@);
        }
        let low: u64 = m[0] as u64 + 0x100 * (m[1] as u64) + 0x1_0000 * (m[2] as u64) + 0x100_0000
            * (m[3] as u64);
        let high: u64 = m[4] as u64 + 0x100 * (m[5] as u64) + 0x1_0000 * (m[6] as u64) + 0x100_0000
            * (m[7] as u64);
        Ok(low + 0x1_0000_0000 * high)
    }

    /// Writes a byte at `address`. A region that starts below
    /// `WRITEABLE_MEMORY` is read-only: there the write fails.
    pub fn set_u8(&mut self, address: u32, v: u8) -> (r: Result<u8, VMError>)
        ensures
            final(self)@ == spec_set(old(self)@, address, le_bytes(v as int, 1)).0,
            match r {
                Ok(w) => w == v && spec_set(old(self)@, address, le_bytes(v as int, 1)).1 is Ok,
                Err(e) => spec_set(old(self)@, address, le_bytes(v as int, 1)).1 == Err::<
                    (),
                    VMError,
                >(e),
            },
            regions_wf(old(self)@) ==> regions_wf(final(self)@),
    {
        if address < WRITEABLE_MEMORY {
            return Err(VMError::WroteReadOnlyMemory(address));
        }
        proof {
            lemma_le_bytes(v as int);
        }
        let m = self.get_mut_sized_memory(address, 1)?;
        m[0] = v;
        assert(m@ =~= le_bytes(v as int, 1));
        Ok(v)
    }

    /// Writes a word at `address`, its low byte first. A region that
    /// starts below `WRITEABLE_MEMORY` is read-only: there the write fails.
    pub fn set_u16(&mut self, address: u32, v: u16) -> (r: Result<u16, VMError>)
        ensures
            final(self)@ == spec_set(old(self)@, address, le_bytes(v as int, 2)).0,
            match r {
                Ok(w) => w == v && spec_set(old(self)@, address, le_bytes(v as int, 2)).1 is Ok,
                Err(e) => spec_set(old(self)@, address, le_bytes(v as int, 2)).1 == Err::<
                    (),
                    VMError,
                >(e),
            },
            regions_wf(old(self)@) ==> regions_wf(final(self)@),
    {
        if address < WRITEABLE_MEMORY {
            return Err(VMError::WroteReadOnlyMemory(address));
        }
        proof {
            lemma_le_bytes(v as int);
        }
        let m = self.get_mut_sized_memory(address, 2)?;
        m[0] = (v % 0x100) as u8;
        m[1] = (v / 0x100) as u8;
        assert(m@ =~= le_bytes(v as int, 2));
        Ok(v)
    }

    /// Writes a double word at `address`, its low byte first. A region that
    /// starts below `WRITEABLE_MEMORY` is read-only: there the write fails.
    pub fn set_u32(&mut self, address: u32, v: u32) -> (r: Result<u32, VMError>)
        ensures
            final(self)@ == spec_set(old(self)@, address, le_bytes(v as int, 4)).0,
            match r {
                Ok(w) => w == v && spec_set(old(self)@, address, le_bytes(v as int, 4)).1 is Ok,
                Err(e) => spec_set(old(self)@, address, le_bytes(v as int, 4)).1 == Err::<
                    (),
                    VMError,
                >(e),
            },
            regions_wf(old(self)@) ==> regions_wf(final(self)@),
    {
        if address < WRITEABLE_MEMORY {
            return Err(VMError::WroteReadOnlyMemory(address));
        }
        proof {
            lemma_le_bytes(v as int);
        }
        let m = self.get_mut_sized_memory(address, 4)?;
        m[0] = (v % 0x100) as u8;
        m[1] = (v / 0x100 % 0x100) as u8;
        m[2] = (v / 0x1_0000 % 0x100) as u8;
        m[3] = (v / 0x100_0000) as u8;
        assert(m@ =~= le_bytes(v as int, 4));
        Ok(v)
    }

    /// Writes a quadruple word at `address`, its low byte first. A region
    /// that starts below `WRITEABLE_MEMORY` is read-only: there the write fails.
    pub fn set_u64(&mut self, address: u32, v: u64) -> (r: Result<u64, VMError>)
        ensures
            final(self)@ == spec_set(old(self)@, address, le_bytes(v as int, 8)).0,
            match r {
                Ok(w) => w == v && spec_set(old(self)@, address, le_bytes(v as int, 8)).1 is Ok,
                Err(e) => spec_set(old(self)@, address, le_bytes(v as int, 8)).1 == Err::<
                    (),
                    VMError,
                >(e),
            },
            regions_wf(old(self)@) ==> regions_wf(final(self)@),
    {
        if address < WRITEABLE_MEMORY {
            return Err(VMError::WroteReadOnlyMemory(address));
        }
        proof {
            lemma_le_bytes(v as int);
        }
        let m = self.get_mut_sized_memory(address, 8)?;
        m[0] = (v % 0x100) as u8;
        m[1] = (v / 0x100 % 0x100) as u8;
        m[2] = (v / 0x1_0000 % 0x100) as u8;
        m[3] = (v / 0x100_0000 % 0x100) as u8;
        m[4] = (v / 0x1_0000_0000 % 0x100) as u8;
        m[5] = (v / 0x100_0000_0000 % 0x100) as u8;
        m[6] = (v / 0x1_0000_0000_0000 % 0x100) as u8;
        m[7] = (v / 0x100_0000_0000_0000) as u8;
        assert(m@ =~= le_bytes(v as int, 8));
        Ok(v)
    }

    /// Whether a region holds `address`'s 0x10000 bytes, whatever its size.
    pub fn section_exists(&self, address: u32) -> (r: bool)
        ensures
            r == self@.contains_key(region_base(address)),
    {
        let base: u32 = address - address % 0x10000;
        self.map.contains_key(&base)
    }
}

} // verus!
