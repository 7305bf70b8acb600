//! Address-decoding bus: a registry of non-overlapping address windows, each
//! bound to a handler variant, dispatching every 16-bit read and write to the
//! owning window with a window-local offset.
//!
//! The bus owns the two storage banks (one contiguous RAM bank backing two
//! address windows, one ROM bank). The keyboard and screen controllers are
//! shared with external collaborators, so each register operation takes them
//! as explicit `&mut` arguments: the caller holds whatever guard scopes the
//! peripheral for the duration of that one operation.

use vstd::prelude::*;

use crate::errors::BusError;
use crate::keyboard::Keyboard;
use crate::screen::{Screen, ScreenView};

verus! {

/// First address of the low RAM window (zero page, stack, general RAM).
pub const RAM_LOW_START: u16 = 0x0000;

/// Last address of the low RAM window.
pub const RAM_LOW_END: u16 = 0x0FFF;

/// First address of the high RAM window.
pub const RAM_HIGH_START: u16 = 0xE000;

/// Last address of the high RAM window.
pub const RAM_HIGH_END: u16 = 0xEFFF;

/// First address of the ROM window.
pub const ROM_START: u16 = 0xFF00;

/// Last address of the ROM window.
pub const ROM_END: u16 = 0xFFFF;

/// Keyboard data register address.
pub const KBD: u16 = 0xD010;

/// Keyboard control register address.
pub const KBDCR: u16 = 0xD011;

/// Screen data register address.
pub const DSP: u16 = 0xD012;

/// Screen control register address.
pub const DSPCR: u16 = 0xD013;

/// Capacity of the RAM bank shared by the two RAM windows.
pub const RAM_BANK_SIZE: usize = 8192;

/// Displacement of the high RAM window inside the RAM bank.
pub const RAM_HIGH_BASE: usize = 4096;

/// Capacity of the ROM bank.
pub const ROM_BANK_SIZE: usize = 256;

/// The handler a region is bound to.
#[derive(Clone, Copy, Debug, PartialEq, Eq, Structural)]
pub enum RegionKind {
    /// Low RAM window: bank index is the window offset itself.
    RamLow,
    /// High RAM window: bank index is the offset displaced by `RAM_HIGH_BASE`.
    RamHigh,
    /// ROM window: readable, never writable.
    Rom,
    /// Keyboard port: data register at offset 0, control register at offset 1.
    KeyboardPort,
    /// Screen port: data register at offset 0, control register at offset 1.
    ScreenPort,
}

/// A contiguous address window bound to one handler.
#[derive(Clone, Copy, Debug, PartialEq, Eq, Structural)]
pub struct MemoryRegion {
    /// First address of the window.
    pub start: u16,
    /// Last address of the window (inclusive).
    pub end: u16,
    /// The handler owning the window.
    pub kind: RegionKind,
}

/// Two regions intersect somewhere.
pub open spec fn overlaps(a: MemoryRegion, b: MemoryRegion) -> bool {
    a.start <= b.end && b.start <= a.end
}

impl MemoryRegion {
    /// The region is non-empty and every offset it can produce stays inside
    /// the bank (or register pair) its handler indexes.
    pub open spec fn wf(self) -> bool {
        &&& self.start <= self.end
        &&& match self.kind {
            RegionKind::RamLow => self.end - self.start < RAM_HIGH_BASE as int,
            RegionKind::RamHigh => RAM_HIGH_BASE as int + (self.end - self.start) < RAM_BANK_SIZE as int,
            RegionKind::Rom => self.end - self.start < ROM_BANK_SIZE as int,
            RegionKind::KeyboardPort => self.end - self.start == 1,
            RegionKind::ScreenPort => self.end - self.start == 1,
        }
    }

    /// The address falls inside the window.
    pub open spec fn spec_contains(self, addr: u16) -> bool {
        self.start <= addr <= self.end
    }
}

/// First index of a region of `regions` containing `addr`; meaningful only
/// when one exists.
pub open spec fn find_idx(regions: Seq<MemoryRegion>, addr: u16) -> int {
    choose|i: int| 0 <= i < regions.len() && (#[trigger] regions[i]).spec_contains(addr)
}

/// Some region of `regions` contains `addr`.
pub open spec fn is_mapped(regions: Seq<MemoryRegion>, addr: u16) -> bool {
    exists|i: int| 0 <= i < regions.len() && (#[trigger] regions[i]).spec_contains(addr)
}

/// Mathematical model of the bus state.
pub struct BusView {
    /// The registered regions, in insertion order.
    pub regions: Seq<MemoryRegion>,
    /// The RAM bank.
    pub ram: Seq<u8>,
    /// The ROM bank.
    pub rom: Seq<u8>,
}

impl BusView {
    /// Banks have their fixed capacities; every region is well formed and no
    /// two registered regions overlap.
    pub open spec fn wf(self) -> bool {
        &&& self.ram.len() == RAM_BANK_SIZE
        &&& self.rom.len() == ROM_BANK_SIZE
        &&& forall|i: int| 0 <= i < self.regions.len() ==> (#[trigger] self.regions[i]).wf()
        &&& forall|i: int, j: int|
            0 <= i < j < self.regions.len() ==> !overlaps(
                #[trigger] self.regions[i],
                #[trigger] self.regions[j],
            )
    }

    /// Some registered region contains `addr`.
    pub open spec fn mapped(self, addr: u16) -> bool {
        is_mapped(self.regions, addr)
    }

    /// Index of the region owning `addr`; meaningful only when mapped.
    pub open spec fn region_index(self, addr: u16) -> int {
        find_idx(self.regions, addr)
    }

    /// Result of a bus read at `addr` and the keyboard state after it; the
    /// bus state itself and the screen are never changed by a read.
    pub open spec fn spec_read(self, kbd: Keyboard, addr: u16) -> (Result<u8, BusError>, Keyboard) {
        if !self.mapped(addr) {
            (Err(BusError::UnmappedAddress), kbd)
        } else {
            let r = self.regions[self.region_index(addr)];
            let off = addr - r.start;
            match r.kind {
                RegionKind::RamLow => (Ok(self.ram[off]), kbd),
                RegionKind::RamHigh => (Ok(self.ram[off + RAM_HIGH_BASE as int]), kbd),
                RegionKind::Rom => (Ok(self.rom[off]), kbd),
                RegionKind::KeyboardPort => if off == 0 {
                    (Ok(kbd.kbd), kbd)
                } else {
                    (Ok(kbd.spec_read_cr_result()), kbd.spec_read_cr_state())
                },
                RegionKind::ScreenPort => (Ok(0u8), kbd),
            }
        }
    }

    /// Result of a bus write of `v` at `addr`, and the bus, keyboard and
    /// screen states after it. On any error every state is unchanged.
    pub open spec fn spec_write(self, kbd: Keyboard, scr: ScreenView, addr: u16, v: u8) -> (
        Result<(), BusError>,
        BusView,
        Keyboard,
        ScreenView,
    ) {
        if !self.mapped(addr) {
            (Err(BusError::UnmappedAddress), self, kbd, scr)
        } else {
            let r = self.regions[self.region_index(addr)];
            let off = addr - r.start;
            match r.kind {
                RegionKind::RamLow => (
                    Ok(()),
                    BusView { ram: self.ram.update(off, v), ..self },
                    kbd,
                    scr,
                ),
                RegionKind::RamHigh => (
                    Ok(()),
                    BusView { ram: self.ram.update(off + RAM_HIGH_BASE as int, v), ..self },
                    kbd,
                    scr,
                ),
                RegionKind::Rom => (Err(BusError::ReadOnlyViolation), self, kbd, scr),
                RegionKind::KeyboardPort => if off == 0 {
                    (Ok(()), self, Keyboard { kbd: v, ..kbd }, scr)
                } else {
                    (Ok(()), self, kbd.spec_write_cr(v), scr)
                },
                RegionKind::ScreenPort => if off == 0 {
                    (scr.spec_write(v).0, self, kbd, scr.spec_write(v).1)
                } else {
                    (Ok(()), self, kbd, scr.spec_write_cr(v))
                },
            }
        }
    }
}

/// A bus state with the same regions and bank sizes as a well-formed one is
/// well formed itself.
pub proof fn lemma_same_regions_wf(a: BusView, b: BusView)
    requires
        a.wf(),
        b.regions == a.regions,
        b.ram.len() == a.ram.len(),
        b.rom.len() == a.rom.len(),
    ensures
        b.wf(),
{
    assert forall|i: int| 0 <= i < b.regions.len() implies (#[trigger] b.regions[i]).wf() by {
        assert(a.regions[i].wf());
    }
    assert forall|i: int, j: int| 0 <= i < j < b.regions.len() implies !overlaps(
        #[trigger] b.regions[i],
        #[trigger] b.regions[j],
    ) by {
        assert(!overlaps(a.regions[i], a.regions[j]));
    }
}

/// Under well-formedness at most one region contains any address.
pub proof fn lemma_unique_region(bus: BusView, addr: u16, i: int, j: int)
    requires
        bus.wf(),
        0 <= i < bus.regions.len(),
        0 <= j < bus.regions.len(),
        bus.regions[i].spec_contains(addr),
        bus.regions[j].spec_contains(addr),
    ensures
        i == j,
{
    if i < j {
        assert(overlaps(bus.regions[i], bus.regions[j]));
    }
    if j < i {
        assert(overlaps(bus.regions[j], bus.regions[i]));
    }
}

/// The region registry together with the storage banks it owns.
pub struct AddressSpace {
    /// The registered regions, in insertion order.
    pub regions: Vec<MemoryRegion>,
    /// The RAM bank shared by the two RAM windows.
    pub ram: Vec<u8>,
    /// The ROM bank.
    pub rom: Vec<u8>,
}

impl View for AddressSpace {
    type V = BusView;

    open spec fn view(&self) -> BusView {
        BusView { regions: self.regions@, ram: self.ram@, rom: self.rom@ }
    }
}

/// A freshly allocated all-zero bank of `n` bytes.
fn zeroed_bank(n: usize) -> (v: Vec<u8>)
    ensures
        v@.len() == n,
        forall|i: int| 0 <= i < n ==> v@[i] == 0u8,
{
    let mut v: Vec<u8> = Vec::new();
    while v.len() < n
        invariant
            v@.len() <= n,
            forall|i: int| 0 <= i < v@.len() ==> v@[i] == 0u8,
        decreases n - v@.len(),
    {
        v.push(0);
    }
    v
}

impl AddressSpace {
    /// An empty registry with zeroed banks.
    pub fn new() -> (s: AddressSpace)
        ensures
            s@.wf(),
            s@.regions.len() == 0,
            forall|i: int| 0 <= i < RAM_BANK_SIZE ==> s@.ram[i] == 0u8,
            forall|i: int| 0 <= i < ROM_BANK_SIZE ==> s@.rom[i] == 0u8,
    {
        AddressSpace {
            regions: Vec::new(),
            ram: zeroed_bank(RAM_BANK_SIZE),
            rom: zeroed_bank(ROM_BANK_SIZE),
        }
    }

    /// Register a region. Fails with `OverlappingRegion`, leaving the
    /// registry unchanged, exactly when the region intersects one already
    /// registered; otherwise appends it.
    pub fn add_region(&mut self, r: MemoryRegion) -> (res: Result<(), BusError>)
        requires
            old(self)@.wf(),
            r.wf(),
        ensures
            final(self)@.wf(),
            final(self)@.ram == old(self)@.ram,
            final(self)@.rom == old(self)@.rom,
            match res {
                Ok(()) => {
                    &&& forall|i: int|
                        0 <= i < old(self)@.regions.len() ==> !overlaps(
                            #[trigger] old(self)@.regions[i],
                            r,
                        )
                    &&& final(self)@.regions == old(self)@.regions.push(r)
                },
                Err(e) => {
                    &&& e == BusError::OverlappingRegion
                    &&& exists|i: int|
                        0 <= i < old(self)@.regions.len() && overlaps(
                            #[trigger] old(self)@.regions[i],
                            r,
                        )
                    &&& *final(self) == *old(self)
                },
            },
    {
        let n = self.regions.len();
        let mut i: usize = 0;
        while i < n
            invariant
                old(self)@.wf(),
                *self == *old(self),
                n == self.regions@.len(),
                i <= n,
                forall|j: int| 0 <= j < i ==> !overlaps(#[trigger] self.regions@[j], r),
            decreases n - i,
        {
            let cur = self.regions[i];
            if r.start <= cur.end && cur.start <= r.end {
                proof {
                    assert(overlaps(self.regions@[i as int], r));
                }
                return Err(BusError::OverlappingRegion);
            }
            i = i + 1;
        }
        self.regions.push(r);
        proof {
            let pushed = self.regions@;
            assert forall|a: int, b: int| 0 <= a < b < pushed.len() implies !overlaps(
                pushed[a],
                pushed[b],
            ) by {
                if b == pushed.len() - 1 {
                    assert(pushed[a] == old(self).regions@[a]);
                    assert(!overlaps(old(self).regions@[a], r));
                } else {
                    assert(pushed[a] == old(self).regions@[a]);
                    assert(pushed[b] == old(self).regions@[b]);
                }
            }
        }
        Ok(())
    }

    /// Index of the region owning `addr`, or `None` when no region does.
    fn find_region(&self, addr: u16) -> (res: Option<usize>)
        requires
            self@.wf(),
        ensures
            match res {
                Some(i) => {
                    &&& self@.mapped(addr)
                    &&& 0 <= i < self@.regions.len()
                    &&& self@.regions[i as int].spec_contains(addr)
                    &&& i as int == self@.region_index(addr)
                },
                None => !self@.mapped(addr),
            },
    {
        let n = self.regions.len();
        let mut i: usize = 0;
        while i < n
            invariant
                self@.wf(),
                n == self.regions@.len(),
                i <= n,
                forall|j: int| 0 <= j < i ==> !(#[trigger] self.regions@[j]).spec_contains(addr),
            decreases n - i,
        {
            let cur = self.regions[i];
            if cur.start <= addr && addr <= cur.end {
                proof {
                    lemma_unique_region(self@, addr, i as int, self@.region_index(addr));
                }
                return Some(i);
            }
            i = i + 1;
        }
        None
    }

    /// Dispatch a read: locate the owning region, translate to a local
    /// offset, and forward to the handler. The keyboard is handed in for the
    /// duration of this one operation; a control-register read may consume
    /// the "key ready" strobe, which is the only state a read can change.
    pub fn read(&self, kbd: &mut Keyboard, addr: u16) -> (r: Result<u8, BusError>)
        requires
            self@.wf(),
        ensures
            r == self@.spec_read(*old(kbd), addr).0,
            *final(kbd) == self@.spec_read(*old(kbd), addr).1,
    {
        match self.find_region(addr) {
            None => Err(BusError::UnmappedAddress),
            Some(i) => {
                let region = self.regions[i];
                let off = (addr - region.start) as usize;
                match region.kind {
                    RegionKind::RamLow => Ok(self.ram[off]),
                    RegionKind::RamHigh => Ok(self.ram[RAM_HIGH_BASE + off]),
                    RegionKind::Rom => Ok(self.rom[off]),
                    RegionKind::KeyboardPort => if off == 0 {
                        Ok(kbd.read_kbd())
                    } else {
                        Ok(kbd.read_cr())
                    },
                    RegionKind::ScreenPort => Ok(0),
                }
            },
        }
    }

    /// Dispatch a write: locate the owning region, translate to a local
    /// offset, and forward to the handler. The peripherals are handed in for
    /// the duration of this one operation. A write into the ROM window fails
    /// with `ReadOnlyViolation` and changes nothing.
    pub fn write(&mut self, kbd: &mut Keyboard, scr: &mut Screen, addr: u16, v: u8) -> (r: Result<
        (),
        BusError,
    >)
        requires
            old(self)@.wf(),
            old(scr)@.wf(),
        ensures
            final(self)@.wf(),
            final(scr)@.wf(),
            r == old(self)@.spec_write(*old(kbd), old(scr)@, addr, v).0,
            final(self)@ == old(self)@.spec_write(*old(kbd), old(scr)@, addr, v).1,
            *final(kbd) == old(self)@.spec_write(*old(kbd), old(scr)@, addr, v).2,
            final(scr)@ == old(self)@.spec_write(*old(kbd), old(scr)@, addr, v).3,
    {
        match self.find_region(addr) {
            None => Err(BusError::UnmappedAddress),
            Some(i) => {
                let region = self.regions[i];
                let off = (addr - region.start) as usize;
                match region.kind {
                    RegionKind::RamLow => {
                        self.ram[off] = v;
                        Ok(())
                    },
                    RegionKind::RamHigh => {
                        self.ram[RAM_HIGH_BASE + off] = v;
                        Ok(())
                    },
                    RegionKind::Rom => Err(BusError::ReadOnlyViolation),
                    RegionKind::KeyboardPort => {
                        if off == 0 {
                            kbd.write_kbd(v);
                        } else {
                            kbd.write_cr(v);
                        }
                        Ok(())
                    },
                    RegionKind::ScreenPort => {
                        if off == 0 {
                            scr.write(v)
                        } else {
                            scr.write_cr(v);
                            Ok(())
                        }
                    },
                }
            },
        }
    }

    /// Copy a firmware image into the ROM bank starting at offset 0, leaving
    /// the rest of the bank and everything else unchanged. Meant for
    /// initialization, before the CPU engine starts issuing accesses.
    pub fn load_rom(&mut self, image: &Vec<u8>)
        requires
            old(self)@.wf(),
            image@.len() <= ROM_BANK_SIZE,
        ensures
            final(self)@.wf(),
            final(self)@.regions == old(self)@.regions,
            final(self)@.ram == old(self)@.ram,
            forall|i: int| 0 <= i < image@.len() ==> final(self)@.rom[i] == image@[i],
            forall|i: int|
                image@.len() <= i < ROM_BANK_SIZE ==> final(self)@.rom[i] == old(self)@.rom[i],
    {
        let n = image.len();
        let mut i: usize = 0;
        while i < n
            invariant
                old(self)@.wf(),
                n == image@.len(),
                n <= ROM_BANK_SIZE,
                i <= n,
                self.rom@.len() == ROM_BANK_SIZE,
                self.regions@ == old(self).regions@,
                self.ram@ == old(self).ram@,
                forall|j: int| 0 <= j < i ==> self.rom@[j] == image@[j],
                forall|j: int| i <= j < ROM_BANK_SIZE ==> self.rom@[j] == old(self).rom@[j],
            decreases n - i,
        {
            let b = image[i];
            self.rom[i] = b;
            i = i + 1;
        }
        proof {
            lemma_same_regions_wf(old(self)@, self@);
        }
    }

    /// Copy an image into the RAM bank starting at bank offset `base`,
    /// leaving the rest of the bank and everything else unchanged. Meant for
    /// initialization, before the CPU engine starts issuing accesses.
    pub fn load_ram(&mut self, base: usize, image: &Vec<u8>)
        requires
            old(self)@.wf(),
            base + image@.len() <= RAM_BANK_SIZE,
        ensures
            final(self)@.wf(),
            final(self)@.regions == old(self)@.regions,
            final(self)@.rom == old(self)@.rom,
            forall|i: int|
                0 <= i < image@.len() ==> final(self)@.ram[base + i] == image@[i],
            forall|i: int|
                0 <= i < RAM_BANK_SIZE && !(base <= i < base + image@.len())
                    ==> final(self)@.ram[i] == old(self)@.ram[i],
    {
        let n = image.len();
        let mut i: usize = 0;
        while i < n
            invariant
                old(self)@.wf(),
                n == image@.len(),
                base + n <= RAM_BANK_SIZE,
                i <= n,
                self.ram@.len() == RAM_BANK_SIZE,
                self.regions@ == old(self).regions@,
                self.rom@ == old(self).rom@,
                forall|j: int| 0 <= j < i ==> self.ram@[base + j] == image@[j],
                forall|j: int|
                    0 <= j < RAM_BANK_SIZE && !(base <= j < base + i) ==> self.ram@[j] == old(
                        self,
                    ).ram@[j],
            decreases n - i,
        {
            let b = image[i];
            self.ram[base + i] = b;
            i = i + 1;
        }
        proof {
            lemma_same_regions_wf(old(self)@, self@);
        }
    }
}

/// The fixed address map: the two RAM windows, the ROM window, and the two
/// 2-byte peripheral ports.
pub open spec fn standard_regions() -> Seq<MemoryRegion> {
    seq![
        MemoryRegion { start: RAM_LOW_START, end: RAM_LOW_END, kind: RegionKind::RamLow },
        MemoryRegion { start: RAM_HIGH_START, end: RAM_HIGH_END, kind: RegionKind::RamHigh },
        MemoryRegion { start: ROM_START, end: ROM_END, kind: RegionKind::Rom },
        MemoryRegion { start: KBD, end: KBDCR, kind: RegionKind::KeyboardPort },
        MemoryRegion { start: DSP, end: DSPCR, kind: RegionKind::ScreenPort },
    ]
}

/// Build the bus with the fixed address map and zeroed banks. Registration
/// of the standard windows is proved overlap-free, so no error can escape.
pub fn init_mem() -> (s: AddressSpace)
    ensures
        s@.wf(),
        s@.regions == standard_regions(),
        forall|i: int| 0 <= i < RAM_BANK_SIZE ==> s@.ram[i] == 0u8,
        forall|i: int| 0 <= i < ROM_BANK_SIZE ==> s@.rom[i] == 0u8,
{
    let mut s = AddressSpace::new();
    let r1 = s.add_region(
        MemoryRegion { start: RAM_LOW_START, end: RAM_LOW_END, kind: RegionKind::RamLow },
    );
    proof {
        assert(r1 is Ok);
    }
    let r2 = s.add_region(
        MemoryRegion { start: RAM_HIGH_START, end: RAM_HIGH_END, kind: RegionKind::RamHigh },
    );
    proof {
        assert(r2 is Ok);
    }
    let r3 = s.add_region(MemoryRegion { start: ROM_START, end: ROM_END, kind: RegionKind::Rom });
    proof {
        assert(r3 is Ok);
    }
    let r4 = s.add_region(
        MemoryRegion { start: KBD, end: KBDCR, kind: RegionKind::KeyboardPort },
    );
    proof {
        assert(r4 is Ok);
    }
    let r5 = s.add_region(MemoryRegion { start: DSP, end: DSPCR, kind: RegionKind::ScreenPort });
    proof {
        assert(r5 is Ok);
        assert(s@.regions =~= standard_regions());
    }
    s
}

} // verus!
