//! The protocol engine: the four primitive flash operations.
//!
//! Reading and sector-erase go through the ROM's routines (modeled on the
//! device); programming and the one-time unlock drive the SPI controller's
//! command and status registers directly, as no ROM routine exists for them.
//! Every primitive runs under the safety coordinator. The wait-ready polls
//! have no bound, matching the hardware's own lack of a bounded-completion
//! guarantee; on the synchronous model they pass at once.
//!
//! The raw layer rejects, before any hardware access, a transfer whose
//! length is not a multiple of 4 bytes: the controller and the ROM routines
//! move whole words.

use vstd::prelude::*;

use crate::coordinator::maybe_with_critical_section;
use crate::coordinator::other_core_running;
use crate::device::cache_set;
use crate::device::fifo_byte;
use crate::device::flash_wf;
use crate::device::read_register;
use crate::device::sector_erased;
use crate::device::spi_read_status_high;
use crate::device::spi_write_status;
use crate::device::write_register;
use crate::device::DeviceView;
use crate::device::FlashDevice;
use crate::device::FlashView;
use crate::device::ESP_ROM_SPIFLASH_W_SIO_ADDR_BITSLEN;
use crate::device::PERIPHS_SPI_FLASH_ADDR;
use crate::device::PERIPHS_SPI_FLASH_C0;
use crate::device::SPI0_EXT2_REG;
use crate::device::SPI_CMD_REG;
use crate::device::SPI_CTRL_REG;
use crate::device::SPI_EXT2_REG;
use crate::device::SPI_FLASH_PP;
use crate::device::SPI_FLASH_RDSR;
use crate::device::SPI_FLASH_WRDI;
use crate::device::SPI_FLASH_WREN;
use crate::device::SPI_RD_STATUS_REG;
use crate::device::SPI_ST;
use crate::device::SPI_USER1_REG;
use crate::device::SPI_USER_REG;
use crate::device::SPI_USR_ADDR_BITLEN_M;
use crate::device::SPI_USR_ADDR_BITLEN_S;
use crate::device::SPI_USR_DUMMY;
use crate::device::SPI_WAIT_FLASH_IDLE_EN;
use crate::device::SPI_WRSR_2B;
use crate::device::STATUS_QIE_BIT;
use crate::device::STATUS_WEL_BIT;
use crate::device::STATUS_WIP_BIT;

verus! {

// ---------------------------------------------------------------------------
// Bit-level facts used throughout, proved once.
// ---------------------------------------------------------------------------

/// The four command bits are distinct one-hot values.
proof fn lemma_cmd_bit_facts()
    by (bit_vector)
    ensures
        SPI_FLASH_RDSR & SPI_FLASH_RDSR != 0,
        SPI_FLASH_WREN & SPI_FLASH_RDSR == 0,
        SPI_FLASH_WREN & SPI_FLASH_WREN != 0,
        SPI_FLASH_WRDI & SPI_FLASH_RDSR == 0,
        SPI_FLASH_WRDI & SPI_FLASH_WREN == 0,
        SPI_FLASH_WRDI & SPI_FLASH_WRDI != 0,
        SPI_FLASH_PP & SPI_FLASH_RDSR == 0,
        SPI_FLASH_PP & SPI_FLASH_WREN == 0,
        SPI_FLASH_PP & SPI_FLASH_WRDI == 0,
        SPI_FLASH_PP & SPI_FLASH_PP != 0,
        0u32 & SPI_ST == 0,
{
}

/// Facts about the flash status bits.
pub(crate) proof fn lemma_status_bit_facts(s: u32)
    by (bit_vector)
    ensures
        s & STATUS_WIP_BIT == 0 ==> (s & 0xFF) & STATUS_WIP_BIT == 0,
        (s | STATUS_WEL_BIT) & STATUS_WEL_BIT != 0,
        (s | STATUS_WEL_BIT) & !STATUS_WEL_BIT == s & !STATUS_WEL_BIT,
        (s & !STATUS_WEL_BIT) & !STATUS_WEL_BIT == s & !STATUS_WEL_BIT,
        (s & STATUS_QIE_BIT) & !STATUS_WEL_BIT == s & STATUS_QIE_BIT,
        ((s & 0xFF00) & STATUS_QIE_BIT) & 0xFFFC == s & STATUS_QIE_BIT,
{
}

/// The control-register bits set before the two-byte status write.
proof fn lemma_ctrl_bit_facts(c: u32)
    by (bit_vector)
    ensures
        (c | SPI_WRSR_2B | SPI_WAIT_FLASH_IDLE_EN) & SPI_WRSR_2B != 0,
{
}

/// Decoding the address register encoded as `(addr & 0xFFFFFF) | (n << 24)`.
proof fn lemma_addr_encode(a: u32, n: u32)
    by (bit_vector)
    requires
        a < 0x1000000,
        n <= 32,
    ensures
        ((a & 0xffffff) | (n << 24u32)) & 0xFFFFFF == a,
        ((a & 0xffffff) | (n << 24u32)) >> 24u32 == n,
{
}

/// The bytes of a little-endian word built from four bytes.
proof fn lemma_le_word_byte(b0: u32, b1: u32, b2: u32, b3: u32)
    by (bit_vector)
    requires
        b0 < 256,
        b1 < 256,
        b2 < 256,
        b3 < 256,
    ensures
        ((b0 | (b1 << 8u32) | (b2 << 16u32) | (b3 << 24u32)) >> 0u32) & 0xFF == b0,
        ((b0 | (b1 << 8u32) | (b2 << 16u32) | (b3 << 24u32)) >> 8u32) & 0xFF == b1,
        ((b0 | (b1 << 8u32) | (b2 << 16u32) | (b3 << 24u32)) >> 16u32) & 0xFF == b2,
        ((b0 | (b1 << 8u32) | (b2 << 16u32) | (b3 << 24u32)) >> 24u32) & 0xFF == b3,
{
}

// ---------------------------------------------------------------------------
// Cache bracketing
// ---------------------------------------------------------------------------

pub(crate) fn cache_read_disable_rom(dev: &mut FlashDevice, cpu_num: u32)
    requires
        old(dev).wf(),
    ensures
        final(dev).wf(),
        final(dev)@ == (DeviceView { flash: cache_set(old(dev)@.flash, cpu_num, false), ..old(dev)@ }),
{
    dev.set_cache(cpu_num, false);
}

/// The model's cache is always coherent, so flushing has no modeled effect.
pub(crate) fn cache_flush_rom(dev: &mut FlashDevice, _cpu_num: u32)
    requires
        old(dev).wf(),
    ensures
        final(dev).wf(),
        final(dev)@ == old(dev)@,
{
}

pub(crate) fn cache_read_enable_rom(dev: &mut FlashDevice, cpu_num: u32)
    requires
        old(dev).wf(),
    ensures
        final(dev).wf(),
        final(dev)@ == (DeviceView { flash: cache_set(old(dev)@.flash, cpu_num, true), ..old(dev)@ }),
{
    dev.set_cache(cpu_num, true);
}

/// Disable both cores' caches before driving the controller registers.
pub fn begin(dev: &mut FlashDevice)
    requires
        old(dev).wf(),
    ensures
        final(dev).wf(),
        final(dev)@ == (DeviceView {
            flash: (FlashView { cache0: false, cache1: false, ..old(dev)@.flash }),
            ..old(dev)@
        }),
{
    cache_read_disable_rom(dev, 0);
    cache_read_disable_rom(dev, 1);
    proof {
        assert(dev@ =~= (DeviceView {
            flash: (FlashView { cache0: false, cache1: false, ..old(dev)@.flash }),
            ..old(dev)@
        }));
    }
}

/// Flush and re-enable both cores' caches; runs on every exit path of the
/// register-level operations.
pub fn end(dev: &mut FlashDevice)
    requires
        old(dev).wf(),
    ensures
        final(dev).wf(),
        final(dev)@ == (DeviceView {
            flash: (FlashView { cache0: true, cache1: true, ..old(dev)@.flash }),
            ..old(dev)@
        }),
{
    cache_flush_rom(dev, 0);
    cache_flush_rom(dev, 1);
    cache_read_enable_rom(dev, 0);
    cache_read_enable_rom(dev, 1);
    proof {
        assert(dev@ =~= (DeviceView {
            flash: (FlashView { cache0: true, cache1: true, ..old(dev)@.flash }),
            ..old(dev)@
        }));
    }
}

// ---------------------------------------------------------------------------
// Polling and write-enable
// ---------------------------------------------------------------------------

/// Poll the two controller state machines until both report idle. There is
/// no bound: on a faulted chip this spins forever. The model completes every
/// command synchronously, so both polls pass at once.
pub fn wait_for_ready(dev: &FlashDevice)
    requires
        dev.wf(),
{
    while read_register(dev, SPI_EXT2_REG) & SPI_ST != 0
        invariant
            dev.wf(),
        decreases 0int,
    {
        proof {
            lemma_cmd_bit_facts();
        }
    }
    while read_register(dev, SPI0_EXT2_REG) & SPI_ST != 0
        invariant
            dev.wf(),
        decreases 0int,
    {
        proof {
            lemma_cmd_bit_facts();
        }
    }
}

/// Poll the flash status register through the controller until the
/// write-in-progress bit reads clear; unbounded, like `wait_for_ready`.
pub fn spiflash_wait_for_ready(dev: &mut FlashDevice)
    requires
        old(dev).wf(),
    ensures
        final(dev).wf(),
        final(dev)@ == (DeviceView {
            flash: (FlashView { rd_status: old(dev)@.flash.status & 0xFF, ..old(dev)@.flash }),
            ..old(dev)@
        }),
{
    loop
        invariant
            dev.wf(),
            dev@ == old(dev)@,
        decreases 0int,
    {
        wait_for_ready(dev);

        write_register(dev, SPI_RD_STATUS_REG, 0);
        write_register(dev, SPI_CMD_REG, SPI_FLASH_RDSR);
        while read_register(dev, SPI_CMD_REG) != 0
            invariant
                dev.wf(),
            decreases 0int,
        {
        }
        proof {
            lemma_cmd_bit_facts();
        }
        if read_register(dev, SPI_RD_STATUS_REG) & STATUS_WIP_BIT == 0 {
            proof {
                assert(dev@ =~= (DeviceView {
                    flash: (FlashView { rd_status: old(dev)@.flash.status & 0xFF, ..old(dev)@.flash }),
                    ..old(dev)@
                }));
            }
            return ;
        }
        proof {
            lemma_status_bit_facts(old(dev)@.flash.status);
        }
    }
}

/// Send the write-enable command: the write-enable latch is set when this
/// returns.
pub fn spi_write_enable(dev: &mut FlashDevice)
    requires
        old(dev).wf(),
    ensures
        final(dev).wf(),
        final(dev)@ == (DeviceView {
            flash: (FlashView {
                rd_status: 0,
                status: old(dev)@.flash.status | STATUS_WEL_BIT,
                ..old(dev)@.flash
            }),
            ..old(dev)@
        }),
{
    spiflash_wait_for_ready(dev);

    write_register(dev, SPI_RD_STATUS_REG, 0);
    // The write-enable command is sent when the bit is set; the bit clears
    // once the operation is done.
    write_register(dev, SPI_CMD_REG, SPI_FLASH_WREN);
    while read_register(dev, SPI_CMD_REG) != 0
        invariant
            dev.wf(),
        decreases 0int,
    {
    }
    proof {
        lemma_cmd_bit_facts();
        assert(dev@ =~= (DeviceView {
            flash: (FlashView {
                rd_status: 0,
                status: old(dev)@.flash.status | STATUS_WEL_BIT,
                ..old(dev)@.flash
            }),
            ..old(dev)@
        }));
    }
}

// ---------------------------------------------------------------------------
// The four primitive operations, register by register
// ---------------------------------------------------------------------------

/// What programming writes to the array: NOR semantics, each byte of `data`
/// is ANDed into the existing contents at `dest`.
pub open spec fn and_programmed(mem: Seq<u8>, dest: int, data: Seq<u8>) -> Seq<u8> {
    Seq::new(mem.len(), |i: int| if dest <= i < dest + data.len() { mem[i] & data[i - dest] } else { mem[i] })
}

/// A little-endian word assembled from four consecutive bytes of `data`.
pub open spec fn le_word(data: Seq<u8>, k: int) -> u32 {
    (data[k] as u32) | ((data[k + 1] as u32) << 8u32) | ((data[k + 2] as u32) << 16u32) | ((data[k + 3] as u32) << 24u32)
}

/// How many bytes the block loop has committed once `block` bytes' worth of
/// blocks have been issued.
spec fn processed(block: int, len: int) -> int {
    if block <= len {
        block
    } else {
        len
    }
}

/// What the read primitive does: in bounds, the requested bytes come back
/// and one read is counted; out of bounds, the ROM routine rejects the call
/// and the out-buffer is untouched. Either way the wait-ready poll has
/// latched the low status byte.
pub open spec fn read_op_post(pre: FlashView, src_addr: u32, len: u32, post: FlashView, code: i32, data: Seq<u8>, data0: Seq<u8>) -> bool {
    &&& (src_addr + len <= pre.mem.len() ==> {
        &&& code == 0
        &&& data == pre.mem.subrange(src_addr as int, src_addr + len)
        &&& post == (FlashView { rd_status: pre.status & 0xFF, reads: pre.reads + 1, ..pre })
    })
    &&& (src_addr + len > pre.mem.len() ==> {
        &&& code == 1
        &&& data == data0
        &&& post == (FlashView { rd_status: pre.status & 0xFF, ..pre })
    })
}

/// What the erase primitive does: in bounds, the sector reads back all-ones,
/// the write-enable latch ends clear and one erase is counted; out of
/// bounds, the ROM routine rejects the call and the cache teardown has run.
pub open spec fn erase_op_post(pre: FlashView, sector_number: u32, post: FlashView, code: i32) -> bool {
    &&& ((sector_number as int) * 4096 + 4096 <= pre.mem.len() ==> {
        &&& code == 0
        &&& post == (FlashView {
            mem: sector_erased(pre.mem, (sector_number as int) * 4096),
            status: pre.status & !STATUS_WEL_BIT,
            erases: pre.erases + 1,
            ..pre
        })
    })
    &&& ((sector_number as int) * 4096 + 4096 > pre.mem.len() ==> {
        &&& code == 1
        &&& post == (FlashView { cache0: true, cache1: true, ..pre })
    })
}

/// What the program primitive does: the data is AND-programmed at the
/// target, the write-enable latch ends clear, both caches are back on and
/// one program cycle is counted. The address register and the FIFO words
/// are scratch state of the data path and are left unspecified.
pub open spec fn write_op_post(pre: FlashView, dest_addr: u32, data: Seq<u8>, post: FlashView, code: i32) -> bool {
    &&& code == 0
    &&& post.mem == and_programmed(pre.mem, dest_addr as int, data)
    &&& post.status == (if data.len() > 0 { pre.status & !STATUS_WEL_BIT } else { pre.status })
    &&& post.rd_status == (if data.len() > 0 { 0u32 } else { pre.status & 0xFF })
    &&& post.user == pre.user & !SPI_USR_DUMMY
    &&& post.user1 == (pre.user1 & !SPI_USR_ADDR_BITLEN_M) | (ESP_ROM_SPIFLASH_W_SIO_ADDR_BITSLEN << SPI_USR_ADDR_BITLEN_S)
    &&& post.ctrl == pre.ctrl
    &&& post.cache0
    &&& post.cache1
    &&& post.fifo.len() == 16
    &&& post.reads == pre.reads
    &&& post.erases == pre.erases
    &&& post.programs == pre.programs + 1
    &&& post.unlocks == pre.unlocks
}

/// What the unlock primitive does: the status register keeps only the
/// quad-enable bit, the two-byte-status-write and idle-wait control bits are
/// set, both caches are back on and one unlock is counted.
pub open spec fn unlock_op_post(pre: FlashView, post: FlashView, code: i32) -> bool {
    &&& code == 0
    &&& post == (FlashView {
        status: pre.status & STATUS_QIE_BIT,
        rd_status: 0,
        ctrl: pre.ctrl | SPI_WRSR_2B | SPI_WAIT_FLASH_IDLE_EN,
        cache0: true,
        cache1: true,
        unlocks: pre.unlocks + 1,
        ..pre
    })
}

/// Read: wait until the flash is idle, then the ROM routine does the
/// transfer.
fn read_op(dev: &mut FlashDevice, src_addr: u32, len: u32, out: &mut Vec<u8>) -> (r: i32)
    requires
        old(dev).wf(),
        len % 4 == 0,
    ensures
        final(dev).wf(),
        read_op_post(old(dev)@.flash, src_addr, len, final(dev)@.flash, r, final(out)@, old(out)@),
        final(dev)@.cores == old(dev)@.cores,
{
    spiflash_wait_for_ready(dev);
    dev.rom_read(src_addr, len, out)
}

/// Erase one sector; on failure the cache teardown still runs before the
/// error is propagated.
fn erase_op(dev: &mut FlashDevice, sector_number: u32) -> (r: i32)
    requires
        old(dev).wf(),
    ensures
        final(dev).wf(),
        erase_op_post(old(dev)@.flash, sector_number, final(dev)@.flash, r),
        final(dev)@.cores == old(dev)@.cores,
{
    let res = dev.rom_erase_sector(sector_number);

    if res != 0 {
        end(dev);
    }
    res
}

fn copy_bytes(v: &Vec<u8>) -> (r: Vec<u8>)
    ensures
        r@ == v@,
{
    let mut r: Vec<u8> = Vec::new();
    let mut i: usize = 0;
    while i < v.len()
        invariant
            i <= v@.len(),
            r@ == v@.take(i as int),
        decreases v@.len() - i,
    {
        r.push(v[i]);
        proof {
            assert(r@ =~= v@.take(i as int + 1));
        }
        i += 1;
    }
    proof {
        assert(v@.take(v@.len() as int) =~= v@);
    }
    r
}

fn word_from_bytes(data: &Vec<u8>, k: usize) -> (w: u32)
    requires
        k + 4 <= data.len(),
    ensures
        w == le_word(data@, k as int),
{
    (data[k] as u32) | ((data[k + 1] as u32) << 8u32) | ((data[k + 2] as u32) << 16u32) | ((data[k + 3] as u32) << 24u32)
}

/// Program `data` at `dest_addr`: configure the single-line address length
/// once, then per 32-byte block wait-ready, write-enable, load the address
/// register with `(address & 0xFFFFFF) | (block_len << 24)`, copy the
/// block's words into the FIFO, trigger the program command and poll until
/// it clears.
fn write_op(dev: &mut FlashDevice, dest_addr: u32, data: &Vec<u8>) -> (r: i32)
    requires
        old(dev).wf(),
        data@.len() % 4 == 0,
        dest_addr + data@.len() <= 0x1000000,
    ensures
        final(dev).wf(),
        write_op_post(old(dev)@.flash, dest_addr, data@, final(dev)@.flash, r),
        final(dev)@.cores == old(dev)@.cores,
{
    let len: u32 = data.len() as u32;
    spiflash_wait_for_ready(dev);
    begin(dev);

    let u = read_register(dev, SPI_USER_REG);
    write_register(dev, SPI_USER_REG, u & !SPI_USR_DUMMY);
    let addrbits = ESP_ROM_SPIFLASH_W_SIO_ADDR_BITSLEN;
    let mut regval = read_register(dev, SPI_USER1_REG);
    regval &= !SPI_USR_ADDR_BITLEN_M;
    regval |= addrbits << SPI_USR_ADDR_BITLEN_S;
    write_register(dev, SPI_USER1_REG, regval);

    let ghost f1 = dev@.flash;
    proof {
        assert(and_programmed(f1.mem, dest_addr as int, data@.take(0)) =~= f1.mem);
    }

    let mut block: u32 = 0;
    while block < len
        invariant
            dev.wf(),
            len == data@.len(),
            len % 4 == 0,
            dest_addr + len <= 0x1000000,
            block % 32 == 0,
            block <= len + 31,
            f1 == (FlashView {
                rd_status: old(dev)@.flash.status & 0xFF,
                cache0: false,
                cache1: false,
                user: old(dev)@.flash.user & !SPI_USR_DUMMY,
                user1: (old(dev)@.flash.user1 & !SPI_USR_ADDR_BITLEN_M) | (ESP_ROM_SPIFLASH_W_SIO_ADDR_BITSLEN << SPI_USR_ADDR_BITLEN_S),
                ..old(dev)@.flash
            }),
            flash_wf(f1),
            dev@.flash.mem == and_programmed(f1.mem, dest_addr as int, data@.take(processed(block as int, len as int))),
            dev@.flash.status == (if block == 0 { f1.status } else { f1.status & !STATUS_WEL_BIT }),
            dev@.flash.rd_status == (if block == 0 { f1.rd_status } else { 0u32 }),
            dev@.flash.user == f1.user,
            dev@.flash.user1 == f1.user1,
            dev@.flash.ctrl == f1.ctrl,
            !dev@.flash.cache0,
            !dev@.flash.cache1,
            dev@.flash.reads == f1.reads,
            dev@.flash.erases == f1.erases,
            dev@.flash.programs == f1.programs,
            dev@.flash.unlocks == f1.unlocks,
            dev@.cores == old(dev)@.cores,
        decreases len + 32 - block,
    {
        spiflash_wait_for_ready(dev);
        spi_write_enable(dev);

        let block_len = if len - block < 32 { len - block } else { 32 };
        let a = dest_addr + block;
        write_register(dev, PERIPHS_SPI_FLASH_ADDR, (a & 0xffffff) | (block_len << 24u32));

        let ghost f2 = dev@.flash;
        let mut i: u32 = 0;
        while i < block_len / 4
            invariant
                dev.wf(),
                block_len <= 32,
                block_len % 4 == 0,
                i <= block_len / 4,
                block + block_len <= len,
                len == data@.len(),
                forall|q: int| 0 <= q < i ==> dev@.flash.fifo[q] == le_word(data@, block + 4 * q),
                (FlashView { fifo: f2.fifo, ..dev@.flash }) == f2,
                dev@.cores == old(dev)@.cores,
            decreases block_len / 4 - i,
        {
            let w = word_from_bytes(data, (block + 4 * i) as usize);
            write_register(dev, PERIPHS_SPI_FLASH_C0 + (4 * i), w);
            i += 1;
        }

        write_register(dev, SPI_RD_STATUS_REG, 0);
        write_register(dev, SPI_CMD_REG, SPI_FLASH_PP);
        while read_register(dev, SPI_CMD_REG) != 0
            invariant
                dev.wf(),
            decreases 0int,
        {
        }
        wait_for_ready(dev);

        proof {
            lemma_cmd_bit_facts();
            lemma_status_bit_facts(f1.status);
            lemma_status_bit_facts(f1.status & !STATUS_WEL_BIT);
            lemma_addr_encode(a, block_len);
            let fifon = dev@.flash.fifo;
            assert forall|idx: int| 0 <= idx < block_len implies fifo_byte(fifon, idx) == data@[block + idx] by {
                let q = idx / 4;
                let rem = idx % 4;
                assert(fifon[q] == le_word(data@, block + 4 * q));
                lemma_le_word_byte(
                    data@[block + 4 * q] as u32,
                    data@[block + 4 * q + 1] as u32,
                    data@[block + 4 * q + 2] as u32,
                    data@[block + 4 * q + 3] as u32,
                );
                assert(4 * q + rem == idx);
            }
            assert(dev@.flash.mem =~= and_programmed(f1.mem, dest_addr as int, data@.take(processed(block as int + 32, len as int))));
        }
        block += 32;
    }
    end(dev);
    dev.note_program();
    proof {
        assert(data@.take(processed(block as int, len as int)) =~= data@);
        if len == 0 {
            assert(and_programmed(f1.mem, dest_addr as int, data@) =~= f1.mem);
        }
    }
    0
}

/// Unlock: clear every protection bit of the two-byte flash status register,
/// preserving only the quad-enable bit; the write-enable latch is cleared
/// afterwards whether or not the status write succeeded, and cache teardown
/// runs on every exit path.
fn unlock_op(dev: &mut FlashDevice) -> (r: i32)
    requires
        old(dev).wf(),
    ensures
        final(dev).wf(),
        unlock_op_post(old(dev)@.flash, final(dev)@.flash, r),
        final(dev)@.cores == old(dev)@.cores,
{
    begin(dev);
    let flashchip = dev.chip_descriptor();
    let mut status: u32 = 0;

    // The ROM's status-read does not wait for the flash to go idle.
    spiflash_wait_for_ready(dev);
    if spi_read_status_high(dev, &flashchip, &mut status) != 0 {
        return -1;
    }

    let new_status = status & STATUS_QIE_BIT;

    // Two bytes are written to the status register when this bit is set;
    // the idle-wait bit makes the controller wait for the flash during
    // program and erase.
    let c = read_register(dev, SPI_CTRL_REG);
    write_register(dev, SPI_CTRL_REG, c | SPI_WRSR_2B | SPI_WAIT_FLASH_IDLE_EN);

    spi_write_enable(dev);
    if spi_write_status(dev, &flashchip, new_status) != 0 {
        end(dev);
        return -1;
    }

    // The write-enable latch is cleared after the operation regardless of
    // whether the write succeeded.
    write_register(dev, SPI_CMD_REG, SPI_FLASH_WRDI);
    while read_register(dev, SPI_CMD_REG) != 0
        invariant
            dev.wf(),
        decreases 0int,
    {
    }

    end(dev);
    dev.note_unlock();
    proof {
        lemma_cmd_bit_facts();
        lemma_status_bit_facts(old(dev)@.flash.status);
        lemma_ctrl_bit_facts(old(dev)@.flash.ctrl);
        assert(dev@.flash =~= (FlashView {
            status: old(dev)@.flash.status & STATUS_QIE_BIT,
            rd_status: 0,
            ctrl: old(dev)@.flash.ctrl | SPI_WRSR_2B | SPI_WAIT_FLASH_IDLE_EN,
            cache0: true,
            cache1: true,
            unlocks: old(dev)@.flash.unlocks + 1,
            ..old(dev)@.flash
        }));
    }
    0
}

// ---------------------------------------------------------------------------
// Dispatch and the public raw surface
// ---------------------------------------------------------------------------

/// One primitive flash operation, as a value, so that the safety coordinator
/// can run any of them inside its critical section.
pub enum FlashOp {
    Read { src_addr: u32, len: u32 },
    Unlock,
    EraseSector { sector_number: u32 },
    Write { dest_addr: u32, data: Vec<u8> },
}

/// Result of one primitive operation: the raw status code (zero is success)
/// and, for a successful read, the bytes read.
pub struct OpResult {
    pub code: i32,
    pub data: Vec<u8>,
}

pub open spec fn op_wf(op: FlashOp) -> bool {
    match op {
        FlashOp::Read { src_addr, len } => len % 4 == 0,
        FlashOp::Write { dest_addr, data } => data@.len() % 4 == 0 && dest_addr + data@.len() <= 0x1000000,
        _ => true,
    }
}

pub open spec fn op_post(pre: FlashView, op: FlashOp, post: FlashView, r: OpResult) -> bool {
    match op {
        FlashOp::Read { src_addr, len } => read_op_post(pre, src_addr, len, post, r.code, r.data@, Seq::<u8>::empty()),
        FlashOp::Unlock => unlock_op_post(pre, post, r.code),
        FlashOp::EraseSector { sector_number } => erase_op_post(pre, sector_number, post, r.code),
        FlashOp::Write { dest_addr, data } => write_op_post(pre, dest_addr, data@, post, r.code),
    }
}

/// Perform one primitive operation on the device. The safety coordinator
/// calls this inside its critical section.
pub(crate) fn perform_op(dev: &mut FlashDevice, op: &FlashOp) -> (r: OpResult)
    requires
        old(dev).wf(),
        op_wf(*op),
    ensures
        final(dev).wf(),
        op_post(old(dev)@.flash, *op, final(dev)@.flash, r),
        final(dev)@.cores == old(dev)@.cores,
{
    match op {
        FlashOp::Read { src_addr, len } => {
            let mut data: Vec<u8> = Vec::new();
            let code = read_op(dev, *src_addr, *len, &mut data);
            OpResult { code, data }
        },
        FlashOp::Unlock => {
            let code = unlock_op(dev);
            OpResult { code, data: Vec::new() }
        },
        FlashOp::EraseSector { sector_number } => {
            let code = erase_op(dev, *sector_number);
            OpResult { code, data: Vec::new() }
        },
        FlashOp::Write { dest_addr, data } => {
            let copy = copy_bytes(data);
            let code = write_op(dev, *dest_addr, &copy);
            OpResult { code, data: Vec::new() }
        },
    }
}

/// Read `len` bytes at `src_addr` into `data`. Expert surface: the length
/// must be a multiple of 4 bytes, else the call is rejected with -1 before
/// any hardware access; out-of-range reads are rejected by the ROM routine
/// with 1 and leave `data` untouched.
pub fn esp_rom_spiflash_read(dev: &mut FlashDevice, src_addr: u32, data: &mut Vec<u8>, len: u32) -> (r: i32)
    requires
        old(dev).wf(),
    ensures
        final(dev).wf(),
        len % 4 != 0 ==> r == -1 && final(dev)@ == old(dev)@ && final(data)@ == old(data)@,
        len % 4 == 0 && src_addr + len <= old(dev)@.flash.mem.len() ==> {
            &&& r == 0
            &&& final(data)@ == old(dev)@.flash.mem.subrange(src_addr as int, src_addr + len)
            &&& final(dev)@.flash == (FlashView {
                rd_status: old(dev)@.flash.status & 0xFF,
                reads: old(dev)@.flash.reads + 1,
                ..old(dev)@.flash
            })
        },
        len % 4 == 0 && src_addr + len > old(dev)@.flash.mem.len() ==> {
            &&& r == 1
            &&& final(data)@ == old(data)@
            &&& final(dev)@.flash == (FlashView { rd_status: old(dev)@.flash.status & 0xFF, ..old(dev)@.flash })
        },
        other_core_running(final(dev)@.cores) == other_core_running(old(dev)@.cores),
        final(dev)@.cores.prid == old(dev)@.cores.prid,
{
    if len % 4 != 0 {
        return -1;
    }
    let op = FlashOp::Read { src_addr, len };
    let res = maybe_with_critical_section(dev, &op);
    let code = res.code;
    if code == 0 {
        *data = res.data;
    }
    code
}

/// Run the one-time write-unlock sequence.
pub fn esp_rom_spiflash_unlock(dev: &mut FlashDevice) -> (r: i32)
    requires
        old(dev).wf(),
    ensures
        final(dev).wf(),
        unlock_op_post(old(dev)@.flash, final(dev)@.flash, r),
        other_core_running(final(dev)@.cores) == other_core_running(old(dev)@.cores),
        final(dev)@.cores.prid == old(dev)@.cores.prid,
{
    let op = FlashOp::Unlock;
    let res = maybe_with_critical_section(dev, &op);
    res.code
}

/// Erase the 4096-byte sector with the given index.
pub fn esp_rom_spiflash_erase_sector(dev: &mut FlashDevice, sector_number: u32) -> (r: i32)
    requires
        old(dev).wf(),
    ensures
        final(dev).wf(),
        erase_op_post(old(dev)@.flash, sector_number, final(dev)@.flash, r),
        other_core_running(final(dev)@.cores) == other_core_running(old(dev)@.cores),
        final(dev)@.cores.prid == old(dev)@.cores.prid,
{
    let op = FlashOp::EraseSector { sector_number };
    let res = maybe_with_critical_section(dev, &op);
    res.code
}

/// Program `data` at `dest_addr` (NOR semantics: bits are only cleared).
/// Expert surface: the length must be a multiple of 4 bytes, else the call
/// is rejected with -1 before any hardware access; the target range must lie
/// in the 24-bit flash address space.
pub fn esp_rom_spiflash_write(dev: &mut FlashDevice, dest_addr: u32, data: &Vec<u8>) -> (r: i32)
    requires
        old(dev).wf(),
        dest_addr + data@.len() <= 0x1000000,
    ensures
        final(dev).wf(),
        data@.len() % 4 != 0 ==> r == -1 && final(dev)@ == old(dev)@,
        data@.len() % 4 == 0 ==> write_op_post(old(dev)@.flash, dest_addr, data@, final(dev)@.flash, r),
        other_core_running(final(dev)@.cores) == other_core_running(old(dev)@.cores),
        final(dev)@.cores.prid == old(dev)@.cores.prid,
{
    if data.len() % 4 != 0 {
        return -1;
    }
    let copy = copy_bytes(data);
    let op = FlashOp::Write { dest_addr, data: copy };
    let res = maybe_with_critical_section(dev, &op);
    res.code
}

} // verus!
