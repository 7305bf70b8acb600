//! Bus-level laws, proved once over the models that the executable
//! contracts speak of.

use vstd::prelude::*;

use crate::bus::{BusView, RegionKind, RAM_HIGH_BASE};
use crate::errors::BusError;
use crate::keyboard::Keyboard;
use crate::screen::ScreenView;

verus! {

/// For every address owned by a RAM window and every byte `v`: a bus write
/// of `v` there succeeds, and a bus read of the same address right after
/// returns `v`.
pub proof fn lemma_ram_write_then_read(
    bus: BusView,
    kbd: Keyboard,
    scr: ScreenView,
    addr: u16,
    v: u8,
)
    requires
        bus.wf(),
        bus.mapped(addr),
        bus.regions[bus.region_index(addr)].kind is RamLow || bus.regions[bus.region_index(
            addr,
        )].kind is RamHigh,
    ensures
        bus.spec_write(kbd, scr, addr, v).0 == Ok::<(), BusError>(()),
        ({
            let bus2 = bus.spec_write(kbd, scr, addr, v).1;
            let kbd2 = bus.spec_write(kbd, scr, addr, v).2;
            bus2.spec_read(kbd2, addr).0 == Ok::<u8, BusError>(v)
        }),
{
    let i = bus.region_index(addr);
    let r = bus.regions[i];
    let bus2 = bus.spec_write(kbd, scr, addr, v).1;
    assert(bus2.regions == bus.regions);
    assert(bus2.mapped(addr));
    assert(bus2.region_index(addr) == i);
    let off = addr - r.start;
    if r.kind is RamLow {
        assert(bus2.ram[off] == v);
    } else {
        assert(bus2.ram[off + RAM_HIGH_BASE as int] == v);
    }
}

/// For every address owned by the ROM window and every byte `v`: a bus write
/// of `v` there fails with `ReadOnlyViolation`, every state is left
/// unchanged, and a read of the same address afterwards returns the same
/// byte it returned before the attempt.
pub proof fn lemma_rom_write_rejected(
    bus: BusView,
    kbd: Keyboard,
    scr: ScreenView,
    addr: u16,
    v: u8,
)
    requires
        bus.wf(),
        bus.mapped(addr),
        bus.regions[bus.region_index(addr)].kind is Rom,
    ensures
        bus.spec_write(kbd, scr, addr, v).0 == Err::<(), BusError>(BusError::ReadOnlyViolation),
        bus.spec_write(kbd, scr, addr, v).1 == bus,
        bus.spec_write(kbd, scr, addr, v).2 == kbd,
        bus.spec_write(kbd, scr, addr, v).3 == scr,
        ({
            let bus2 = bus.spec_write(kbd, scr, addr, v).1;
            let kbd2 = bus.spec_write(kbd, scr, addr, v).2;
            bus2.spec_read(kbd2, addr) == bus.spec_read(kbd, addr)
        }),
{
}

/// The "key ready" strobe is consumed exactly once: whenever a
/// control-register read returns the ready code, the register is left at
/// zero, so an immediate second read returns `0` and changes nothing.
pub proof fn lemma_strobe_consumed_once(kbd: Keyboard)
    requires
        kbd.kbd_interrupts,
        kbd.cr >= 0x80,
    ensures
        kbd.spec_read_cr_result() == crate::keyboard::KEY_READY_CODE,
        kbd.spec_read_cr_state().spec_read_cr_result() == 0,
        kbd.spec_read_cr_state().spec_read_cr_state() == kbd.spec_read_cr_state(),
{
}

/// Keyboard and screen are independent resources: a bus write into the
/// keyboard window leaves the screen and the storage banks unchanged, and a
/// bus write into the screen window leaves the keyboard and the storage
/// banks unchanged.
pub proof fn lemma_peripheral_isolation(
    bus: BusView,
    kbd: Keyboard,
    scr: ScreenView,
    addr: u16,
    v: u8,
)
    requires
        bus.wf(),
        bus.mapped(addr),
    ensures
        bus.regions[bus.region_index(addr)].kind is KeyboardPort ==> {
            &&& bus.spec_write(kbd, scr, addr, v).1 == bus
            &&& bus.spec_write(kbd, scr, addr, v).3 == scr
        },
        bus.regions[bus.region_index(addr)].kind is ScreenPort ==> {
            &&& bus.spec_write(kbd, scr, addr, v).1 == bus
            &&& bus.spec_write(kbd, scr, addr, v).2 == kbd
        },
{
}

} // verus!
