//! Address bus: a non-overlapping mapping from address ranges to devices.
//! Reads and writes are total over the 16-bit address space; an address with
//! no owning device reads as a configured open-bus default and swallows
//! writes silently — neither is an error, mirroring tolerant real-hardware
//! bus behaviour.
//!
//! A device receives offsets relative to the start of the range that
//! addresses it; it carries no identity beyond that range.

use vstd::prelude::*;
use crate::ppu::Ppu;

verus! {

/// Read capability every addressable peripheral implements: `offset` is
/// relative to the start of the address range the bus routed from.
pub trait DeviceRead {
    fn device_read(&self, offset: u16) -> u8;
}

/// Write capability every addressable peripheral implements.
pub trait DeviceWrite {
    fn device_write(&mut self, offset: u16, value: u8);
}

/// Spec-level contents of a device: enough to say what any read returns.
pub ghost enum DeviceView {
    Ram(Seq<u8>),
    Ppu,
}

/// What a device read at `offset` returns: work memory yields the stored
/// byte (zero beyond its size), the video stub always yields zero.
pub open spec fn device_read_v(d: DeviceView, offset: u16) -> u8 {
    match d {
        DeviceView::Ram(data) => if offset < data.len() { data[offset as int] } else { 0 },
        DeviceView::Ppu => 0,
    }
}

/// Device contents after a write of `value` at `offset`: work memory updates
/// the addressed cell (a write beyond its size changes nothing), the video
/// stub discards the write.
pub open spec fn device_write_v(d: DeviceView, offset: u16, value: u8) -> DeviceView {
    match d {
        DeviceView::Ram(data) => if offset < data.len() {
            DeviceView::Ram(data.update(offset as int, value))
        } else {
            DeviceView::Ram(data)
        },
        DeviceView::Ppu => DeviceView::Ppu,
    }
}

/// Work memory: a byte array addressed from offset zero.
pub struct Ram {
    pub data: Vec<u8>,
}

impl View for Ram {
    type V = Seq<u8>;

    open spec fn view(&self) -> Seq<u8> {
        self.data@
    }
}

impl Ram {
    /// Fresh zero-filled work memory of `size` bytes.
    pub fn new(size: usize) -> (r: Ram)
        ensures
            r@.len() == size,
            forall|i: int| 0 <= i < size ==> r@[i] == 0,
    {
        let mut data: Vec<u8> = Vec::new();
        let mut i: usize = 0;
        while i < size
            invariant
                i <= size,
                data@.len() == i,
                forall|j: int| 0 <= j < i ==> data@[j] == 0,
            decreases size - i,
        {
            data.push(0);
            i = i + 1;
        }
        Ram { data }
    }

    /// Read the byte at `offset`; beyond the memory's size it reads as zero.
    pub fn read_at(&self, offset: u16) -> (r: u8)
        ensures
            r == device_read_v(DeviceView::Ram(self@), offset),
    {
        if (offset as usize) < self.data.len() {
            self.data[offset as usize]
        } else {
            0
        }
    }

    /// Write `value` at `offset`; beyond the memory's size the write changes
    /// nothing.
    pub fn write_at(&mut self, offset: u16, value: u8)
        ensures
            DeviceView::Ram(final(self)@) == device_write_v(
                DeviceView::Ram(old(self)@),
                offset,
                value,
            ),
    {
        if (offset as usize) < self.data.len() {
            let _ = self.data.remove(offset as usize);
            self.data.insert(offset as usize, value);
            proof {
                assert(self.data@ =~= old(self).data@.update(offset as int, value));
            }
        }
    }
}

impl DeviceRead for Ram {
    fn device_read(&self, offset: u16) -> u8 {
        self.read_at(offset)
    }
}

impl DeviceWrite for Ram {
    fn device_write(&mut self, offset: u16, value: u8) {
        self.write_at(offset, value)
    }
}

/// The concrete peripherals a bus can own a binding to.
pub enum MappedDevice {
    Ram(Ram),
    Ppu(Ppu),
}

impl View for MappedDevice {
    type V = DeviceView;

    open spec fn view(&self) -> DeviceView {
        match self {
            MappedDevice::Ram(ram) => DeviceView::Ram(ram@),
            MappedDevice::Ppu(_) => DeviceView::Ppu,
        }
    }
}

impl MappedDevice {
    /// Route a read to the owning peripheral.
    pub fn read_at(&self, offset: u16) -> (r: u8)
        ensures
            r == device_read_v(self@, offset),
    {
        match self {
            MappedDevice::Ram(ram) => ram.read_at(offset),
            MappedDevice::Ppu(ppu) => ppu.read_at(offset),
        }
    }

    /// Route a write to the owning peripheral.
    pub fn write_at(&mut self, offset: u16, value: u8)
        ensures
            final(self)@ == device_write_v(old(self)@, offset, value),
    {
        match self {
            MappedDevice::Ram(ram) => ram.write_at(offset, value),
            MappedDevice::Ppu(ppu) => ppu.write_at(offset, value),
        }
    }
}

impl DeviceRead for MappedDevice {
    fn device_read(&self, offset: u16) -> u8 {
        self.read_at(offset)
    }
}

impl DeviceWrite for MappedDevice {
    fn device_write(&mut self, offset: u16, value: u8) {
        self.write_at(offset, value)
    }
}

/// One range-to-device binding; `start` and `end` are inclusive bounds.
pub struct Mapping {
    pub start: u16,
    pub end: u16,
    pub device: MappedDevice,
}

/// Spec-level binding.
pub ghost struct MappingView {
    pub start: u16,
    pub end: u16,
    pub device: DeviceView,
}

impl View for Mapping {
    type V = MappingView;

    open spec fn view(&self) -> MappingView {
        MappingView { start: self.start, end: self.end, device: self.device@ }
    }
}

/// Whether `address` falls in the binding's range.
pub open spec fn mapping_contains(m: MappingView, address: u16) -> bool {
    m.start <= address <= m.end
}

/// Whether the binding's range overlaps the inclusive range `start..=end`.
pub open spec fn ranges_overlap(m: MappingView, start: u16, end: u16) -> bool {
    !(end < m.start || m.end < start)
}

/// Index of the first binding whose range holds `address`, searching from
/// position `i`.
pub open spec fn spec_find_from(mappings: Seq<MappingView>, address: u16, i: int) -> Option<int>
    decreases mappings.len() - i,
{
    if i < 0 || i >= mappings.len() {
        None
    } else if mapping_contains(mappings[i], address) {
        Some(i)
    } else {
        spec_find_from(mappings, address, i + 1)
    }
}

/// Spec-level bus: the bindings in lookup order and the open-bus default.
pub ghost struct BusView {
    pub mappings: Seq<MappingView>,
    pub open_bus: u8,
}

/// Index of the binding that owns `address`, if any.
pub open spec fn spec_find(bv: BusView, address: u16) -> Option<int> {
    spec_find_from(bv.mappings, address, 0)
}

/// What a bus read at `address` returns: the owning device's byte at the
/// range-relative offset, or the open-bus default when no device owns the
/// address.
pub open spec fn bus_read_v(bv: BusView, address: u16) -> u8 {
    match spec_find(bv, address) {
        Some(i) => device_read_v(bv.mappings[i].device, (address - bv.mappings[i].start) as u16),
        None => bv.open_bus,
    }
}

/// The bus after a write of `value` at `address`: the owning device absorbs
/// the write at the range-relative offset; with no owning device the bus is
/// unchanged.
pub open spec fn bus_write_v(bv: BusView, address: u16, value: u8) -> BusView {
    match spec_find(bv, address) {
        Some(i) => BusView {
            mappings: bv.mappings.update(
                i,
                MappingView {
                    start: bv.mappings[i].start,
                    end: bv.mappings[i].end,
                    device: device_write_v(
                        bv.mappings[i].device,
                        (address - bv.mappings[i].start) as u16,
                        value,
                    ),
                },
            ),
            open_bus: bv.open_bus,
        },
        None => bv,
    }
}

/// The bus invariant: every binding's range is ordered and no two bindings
/// overlap.
pub open spec fn bus_wf(bv: BusView) -> bool {
    &&& forall|i: int| 0 <= i < bv.mappings.len() ==>
            (#[trigger] bv.mappings[i]).start <= bv.mappings[i].end
    &&& forall|i: int, j: int|
            0 <= i < bv.mappings.len() && 0 <= j < bv.mappings.len() && i != j ==>
                !ranges_overlap(
                    #[trigger] bv.mappings[i],
                    (#[trigger] bv.mappings[j]).start,
                    bv.mappings[j].end,
                )
}

/// Reading an unowned address yields the open-bus default and raises no
/// error; writing one changes nothing anywhere in the system.
pub proof fn lemma_open_bus(bv: BusView, address: u16, value: u8)
    requires
        spec_find(bv, address) is None,
    ensures
        bus_read_v(bv, address) == bv.open_bus,
        bus_write_v(bv, address, value) == bv,
{
}

/// A found binding holds the address it was found for.
proof fn lemma_find_from_contains(mappings: Seq<MappingView>, address: u16, i: int)
    ensures
        spec_find_from(mappings, address, i) matches Some(j) ==>
            i <= j < mappings.len() && mapping_contains(mappings[j], address),
    decreases mappings.len() - i,
{
    if i < 0 || i >= mappings.len() {
    } else if mapping_contains(mappings[i], address) {
    } else {
        lemma_find_from_contains(mappings, address, i + 1);
    }
}

/// Lookup depends only on the bindings' ranges.
proof fn lemma_find_from_same_ranges(
    s1: Seq<MappingView>,
    s2: Seq<MappingView>,
    address: u16,
    i: int,
)
    requires
        s1.len() == s2.len(),
        forall|j: int| 0 <= j < s1.len() ==>
            (#[trigger] s1[j]).start == s2[j].start && s1[j].end == s2[j].end,
    ensures
        spec_find_from(s1, address, i) == spec_find_from(s2, address, i),
    decreases s1.len() - i,
{
    if i < 0 || i >= s1.len() {
    } else {
        lemma_find_from_same_ranges(s1, s2, address, i + 1);
    }
}

/// A write never changes which binding owns any address.
pub proof fn lemma_write_preserves_find(bv: BusView, waddr: u16, value: u8, address: u16)
    ensures
        spec_find(bus_write_v(bv, waddr, value), address) == spec_find(bv, address),
{
    lemma_find_from_contains(bv.mappings, waddr, 0);
    lemma_find_from_same_ranges(bus_write_v(bv, waddr, value).mappings, bv.mappings, address, 0);
}

/// A write at one address leaves the read at every other address unchanged.
pub proof fn lemma_write_preserves_other_reads(bv: BusView, waddr: u16, value: u8, address: u16)
    requires
        address != waddr,
    ensures
        bus_read_v(bus_write_v(bv, waddr, value), address) == bus_read_v(bv, address),
{
    lemma_write_preserves_find(bv, waddr, value, address);
    if let Some(j) = spec_find(bv, address) {
        lemma_find_from_contains(bv.mappings, address, 0);
        if let Some(i) = spec_find(bv, waddr) {
            lemma_find_from_contains(bv.mappings, waddr, 0);
            if i == j {
                assert((address - bv.mappings[j].start) as u16
                    != (waddr - bv.mappings[i].start) as u16);
            }
        }
    }
}

/// The address bus. It owns the bindings for the run's duration; the CPU
/// core routes every memory access through it.
pub struct AddressBus {
    pub mappings: Vec<Mapping>,
    pub open_bus: u8,
}

impl View for AddressBus {
    type V = BusView;

    open spec fn view(&self) -> BusView {
        BusView {
            mappings: self.mappings@.map_values(|m: Mapping| m@),
            open_bus: self.open_bus,
        }
    }
}

impl AddressBus {
    /// A bus with no bindings; every read yields `open_bus`.
    pub fn new(open_bus: u8) -> (r: AddressBus)
        ensures
            r@.mappings.len() == 0,
            r@.open_bus == open_bus,
    {
        AddressBus { mappings: Vec::new(), open_bus }
    }

    /// Bind the inclusive range `start..=end` to `device`. The binding is
    /// accepted only when the range is ordered and overlaps no existing
    /// binding, keeping the bus invariant; a refused binding leaves the bus
    /// unchanged.
    pub fn map_device(&mut self, start: u16, end: u16, device: MappedDevice) -> (r: bool)
        ensures
            r <==> (start <= end && forall|j: int|
                0 <= j < old(self)@.mappings.len() ==>
                    !ranges_overlap(#[trigger] old(self)@.mappings[j], start, end)),
            r ==> final(self)@.mappings == old(self)@.mappings.push(
                MappingView { start, end, device: device@ },
            ),
            !r ==> *final(self) == *old(self),
            final(self)@.open_bus == old(self)@.open_bus,
            bus_wf(old(self)@) && r ==> bus_wf(final(self)@),
    {
        if end < start {
            return false;
        }
        let n = self.mappings.len();
        let mut i: usize = 0;
        while i < n
            invariant
                i <= n,
                n == self.mappings.len(),
                forall|j: int| 0 <= j < i ==>
                    !ranges_overlap(#[trigger] self@.mappings[j], start, end),
            decreases n - i,
        {
            let m = &self.mappings[i];
            if !(end < m.start || m.end < start) {
                proof {
                    assert(ranges_overlap(self@.mappings[i as int], start, end));
                }
                return false;
            }
            i = i + 1;
        }
        self.mappings.push(Mapping { start, end, device });
        proof {
            assert(self@.mappings =~= old(self)@.mappings.push(
                MappingView { start, end, device: self.mappings@.last()@.device },
            ));
        }
        true
    }

    /// Read the byte at `address`: the owning device answers at the
    /// range-relative offset; an unowned address reads as the open-bus
    /// default.
    pub fn read(&self, address: u16) -> (r: u8)
        ensures
            r == bus_read_v(self@, address),
    {
        let n = self.mappings.len();
        let mut i: usize = 0;
        while i < n
            invariant
                i <= n,
                n == self.mappings.len(),
                spec_find(self@, address) == spec_find_from(self@.mappings, address, i as int),
            decreases n - i,
        {
            let m = &self.mappings[i];
            if m.start <= address && address <= m.end {
                return m.device.read_at(address - m.start);
            }
            i = i + 1;
        }
        self.open_bus
    }

    /// Write `value` at `address`: the owning device absorbs it at the
    /// range-relative offset; a write to an unowned address is a silent
    /// no-op.
    pub fn write(&mut self, address: u16, value: u8)
        ensures
            final(self)@ == bus_write_v(old(self)@, address, value),
    {
        let n = self.mappings.len();
        let mut i: usize = 0;
        while i < n
            invariant
                i <= n,
                n == self.mappings.len(),
                *self == *old(self),
                spec_find(self@, address) == spec_find_from(self@.mappings, address, i as int),
            decreases n - i,
        {
            let found = {
                let m = &self.mappings[i];
                m.start <= address && address <= m.end
            };
            if found {
                let mut m = self.mappings.remove(i);
                let offset = address - m.start;
                m.device.write_at(offset, value);
                self.mappings.insert(i, m);
                proof {
                    assert(self@.mappings =~= bus_write_v(old(self)@, address, value).mappings);
                }
                return;
            }
            i = i + 1;
        }
    }
}

} // verus!
