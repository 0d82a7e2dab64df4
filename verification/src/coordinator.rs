//! Safety coordination: every primitive flash operation runs with exclusive
//! hardware access. The executing core takes a critical section (interrupts
//! and preemption off) through the critical-section crate, and the other
//! physical core, which shares the flash-backed cache, is halted through the
//! core-stall unit for the duration and afterwards returned to the state it
//! was in.
//!
//! Everything reachable from a guarded operation must be placed in RAM, not
//! in the flash being erased or programmed; this is a build-time placement
//! obligation on the port, not a runtime check, and the model does not
//! represent it.

use vstd::prelude::*;

use crate::device::CoreView;
use crate::device::FlashDevice;
use crate::protocol::op_post;
use crate::protocol::op_wf;
use crate::protocol::perform_op;
use crate::protocol::FlashOp;
use crate::protocol::OpResult;

verus! {

/// Which core is executing, from the processor-identification register.
pub open spec fn core_id(prid: u32) -> int {
    if (prid >> 13) & 1 == 0 {
        0
    } else {
        1
    }
}

/// Whether the core other than the executing one is running: its two
/// stall-control bits in the `options0` register are clear.
pub open spec fn other_core_running(c: CoreView) -> bool {
    if core_id(c.prid) == 0 {
        c.options0 & 0b11 == 0
    } else {
        c.options0 & 0b1100 == 0
    }
}

/// The stall-unit registers after the other core has been halted.
pub open spec fn parked_cores(c: CoreView) -> CoreView {
    if core_id(c.prid) == 0 {
        (CoreView {
            sw_cpu_stall: (c.sw_cpu_stall & !(0x3fu32 << 20)) | (0x21u32 << 20),
            options0: (c.options0 & !0b11u32) | 0b10,
            ..c
        })
    } else {
        (CoreView {
            sw_cpu_stall: (c.sw_cpu_stall & !(0x3fu32 << 26)) | (0x21u32 << 26),
            options0: (c.options0 & !0b1100u32) | 0b1000,
            ..c
        })
    }
}

/// The stall-unit registers after the other core has been resumed.
pub open spec fn unparked_cores(c: CoreView) -> CoreView {
    if core_id(c.prid) == 0 {
        (CoreView {
            sw_cpu_stall: c.sw_cpu_stall & !(0x3fu32 << 20),
            options0: c.options0 & !0b11u32,
            ..c
        })
    } else {
        (CoreView {
            sw_cpu_stall: c.sw_cpu_stall & !(0x3fu32 << 26),
            options0: c.options0 & !0b1100u32,
            ..c
        })
    }
}

pub(crate) fn get_current_core(dev: &FlashDevice) -> (r: u8)
    ensures
        r as int == core_id(dev@.cores.prid),
{
    let x = dev.prid_reg();
    if (x >> 13) & 1 != 0 {
        1
    } else {
        0
    }
}

/// Whether the other core is currently running, read from the stall unit.
pub fn is_other_core_running(dev: &FlashDevice) -> (r: bool)
    ensures
        r == other_core_running(dev@.cores),
{
    let o = dev.options0_reg();
    if get_current_core(dev) == 0 {
        o & 0b11 == 0
    } else {
        o & 0b1100 == 0
    }
}

/// Halt the other core through the stall unit, and report whether it was
/// running when this was called.
pub fn park_other_core(dev: &mut FlashDevice) -> (other_was_running: bool)
    requires
        old(dev).wf(),
    ensures
        final(dev).wf(),
        other_was_running == other_core_running(old(dev)@.cores),
        final(dev)@.cores == parked_cores(old(dev)@.cores),
        final(dev)@.flash == old(dev)@.flash,
        !other_core_running(final(dev)@.cores),
{
    let current = get_current_core(dev);
    let other_was_running: bool;

    if current == 0 {
        other_was_running = dev.options0_reg() & 0b11 == 0;
        let sw = dev.sw_cpu_stall_reg();
        dev.set_sw_cpu_stall_reg(sw & !(0b111111 << 20) | (0x21 << 20));
        let o = dev.options0_reg();
        dev.set_options0_reg(o & !(0b11) | 0b10);
    } else {
        other_was_running = dev.options0_reg() & 0b1100 == 0;
        let sw = dev.sw_cpu_stall_reg();
        dev.set_sw_cpu_stall_reg(sw & !(0b111111 << 26) | (0x21 << 26));
        let o = dev.options0_reg();
        dev.set_options0_reg(o & !(0b1100) | 0b1000);
    }
    proof {
        let o = old(dev)@.cores.options0;
        assert(((o & !0b11u32) | 0b10) & 0b11 != 0) by (bit_vector);
        assert(((o & !0b1100u32) | 0b1000) & 0b1100 != 0) by (bit_vector);
        assert(!(0b111111u32 << 20) == !(0x3fu32 << 20) && !(0b111111u32 << 26) == !(0x3fu32 << 26))
            by (bit_vector);
    }
    other_was_running
}

/// Resume the other core, but only if `enable` says it was running before it
/// was parked; a core that was already halted stays halted.
pub fn unpark_other_core(dev: &mut FlashDevice, enable: bool)
    requires
        old(dev).wf(),
    ensures
        final(dev).wf(),
        final(dev)@.cores == (if enable {
            unparked_cores(old(dev)@.cores)
        } else {
            old(dev)@.cores
        }),
        final(dev)@.flash == old(dev)@.flash,
        enable ==> other_core_running(final(dev)@.cores),
{
    if enable {
        let current = get_current_core(dev);
        if current == 0 {
            let sw = dev.sw_cpu_stall_reg();
            dev.set_sw_cpu_stall_reg(sw & !(0b111111 << 20) | (0x0 << 20));
            let o = dev.options0_reg();
            dev.set_options0_reg(o & !(0b11) | 0b00);
        } else {
            let sw = dev.sw_cpu_stall_reg();
            dev.set_sw_cpu_stall_reg(sw & !(0b111111 << 26) | (0x0 << 26));
            let o = dev.options0_reg();
            dev.set_options0_reg(o & !(0b1100) | 0b0000);
        }
        proof {
            let o = old(dev)@.cores.options0;
            assert((o & !0b11u32) & 0b11 == 0) by (bit_vector);
            assert((o & !0b1100u32) & 0b1100 == 0) by (bit_vector);
            assert(!(0b111111u32 << 20) == !(0x3fu32 << 20) && !(0b111111u32 << 26) == !(0x3fu32 << 26))
                by (bit_vector);
            let sw = old(dev)@.cores.sw_cpu_stall;
            assert((sw & !(0x3fu32 << 20)) | (0x0u32 << 20) == sw & !(0x3fu32 << 20)) by (bit_vector);
            assert((sw & !(0x3fu32 << 26)) | (0x0u32 << 26) == sw & !(0x3fu32 << 26)) by (bit_vector);
            assert((o & !0b11u32) | 0b00 == o & !0b11u32) by (bit_vector);
            assert((o & !0b1100u32) | 0b0000 == o & !0b1100u32) by (bit_vector);
        }
    }
}

/// Law: parking the other core and then unparking it with the flag that
/// `park_other_core` reported restores the other core's running state
/// exactly: a core that was running is running again, and a core that was
/// already halted before parking is not resumed.
pub proof fn lemma_park_unpark_restores(pre: CoreView, mid: CoreView, post: CoreView, was_running: bool)
    requires
        was_running == other_core_running(pre),
        mid == parked_cores(pre),
        post == (if was_running {
            unparked_cores(mid)
        } else {
            mid
        }),
    ensures
        other_core_running(post) == other_core_running(pre),
        !was_running ==> post == mid && !other_core_running(post),
{
    let o = pre.options0;
    assert(((o & !0b11u32) | 0b10) & 0b11 != 0) by (bit_vector);
    assert(((o & !0b1100u32) | 0b1000) & 0b1100 != 0) by (bit_vector);
    assert((((o & !0b11u32) | 0b10) & !0b11u32) & 0b11 == 0) by (bit_vector);
    assert((((o & !0b1100u32) | 0b1000) & !0b1100u32) & 0b1100 == 0) by (bit_vector);
}

/// Relies on `critical_section::with` of the critical-section crate: it
/// acquires the critical section, calls the closure exactly once, releases
/// the critical section even on unwind, and returns the closure's result
/// unchanged. The closure only calls the verified `perform_op`, whose
/// contract this function restates.
#[verifier::external_body]
fn perform_op_in_critical_section(dev: &mut FlashDevice, op: &FlashOp) -> (r: OpResult)
    requires
        old(dev).wf(),
        op_wf(*op),
    ensures
        final(dev).wf(),
        op_post(old(dev)@.flash, *op, final(dev)@.flash, r),
        final(dev)@.cores == old(dev)@.cores,
{
    critical_section::with(|_| perform_op(dev, op))
}

/// Run one primitive flash operation with exclusive hardware access: the
/// other core is halted first and afterwards restored to its prior running
/// state, and the operation itself runs inside a critical section.
pub fn maybe_with_critical_section(dev: &mut FlashDevice, op: &FlashOp) -> (r: OpResult)
    requires
        old(dev).wf(),
        op_wf(*op),
    ensures
        final(dev).wf(),
        op_post(old(dev)@.flash, *op, final(dev)@.flash, r),
        other_core_running(final(dev)@.cores) == other_core_running(old(dev)@.cores),
        final(dev)@.cores.prid == old(dev)@.cores.prid,
{
    let was_running = park_other_core(dev);
    let res = perform_op_in_critical_section(dev, op);
    let ghost mid = dev@.cores;
    unpark_other_core(dev, was_running);
    proof {
        lemma_park_unpark_restores(old(dev)@.cores, mid, dev@.cores, was_running);
    }
    res
}

} // verus!
