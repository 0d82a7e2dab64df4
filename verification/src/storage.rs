//! The byte-addressable storage API: the sector-transaction engine.
//!
//! Any read or write request, at any offset and of any length inside the
//! device's capacity, is decomposed into whole-sector operations: read the
//! sector, splice the request's bytes into it, erase the sector, program the
//! whole modified sector back. Untouched bytes of every touched sector are
//! preserved. A failing hardware step aborts the whole call at once; sectors
//! already committed stay committed — no rollback, no retry.

use vstd::prelude::*;

use crate::coordinator::other_core_running;
use crate::device::FlashDevice;
use crate::device::FlashView;
use crate::device::SECTOR_SIZE;
use crate::device::ESP_ROM_SPIFLASH_W_SIO_ADDR_BITSLEN;
use crate::device::FLASH_ADDR_SPACE;
use crate::device::SPI_USR_ADDR_BITLEN_M;
use crate::device::SPI_USR_ADDR_BITLEN_S;
use crate::device::SPI_USR_DUMMY;
use crate::device::SPI_WAIT_FLASH_IDLE_EN;
use crate::device::SPI_WRSR_2B;
use crate::device::STATUS_QIE_BIT;
use crate::device::STATUS_WEL_BIT;
use crate::protocol::esp_rom_spiflash_erase_sector;
use crate::protocol::esp_rom_spiflash_read;
use crate::protocol::esp_rom_spiflash_unlock;
use crate::protocol::esp_rom_spiflash_write;
use crate::protocol::lemma_status_bit_facts;

verus! {

/// Error of the storage API: the raw status code of a failed hardware call,
/// or a synthetic rejection raised before any hardware access.
#[derive(Clone, Copy, Debug, PartialEq, Eq, Structural)]
pub enum FlashStorageError {
    /// A hardware call returned this non-zero status code.
    IoError(i32),
    /// A raw-layer transfer length was not a multiple of 4 bytes.
    NotAligned,
    /// The request does not fit below the discovered capacity.
    OutOfBounds,
    /// The one-time write-unlock sequence failed.
    CantUnlock,
}

/// Device offset of the 8-byte header that carries the size-class nibble.
pub const FLASH_HEADER_OFFSET: u32 = 0x1000;

/// The contents after writing `data` at `off`: the written range is
/// replaced, everything else is kept.
pub open spec fn spliced(mem: Seq<u8>, off: int, data: Seq<u8>) -> Seq<u8> {
    Seq::new(mem.len(), |i: int| if off <= i < off + data.len() { data[i - off] } else { mem[i] })
}

/// Size class of the header's byte-3 high nibble, in bytes; unmapped
/// nibbles decode to 0.
pub open spec fn nibble_capacity(n: u32) -> int {
    if n == 0 {
        0x100000
    } else if n == 1 {
        0x200000
    } else if n == 2 {
        0x400000
    } else if n == 3 {
        0x800000
    } else if n == 4 {
        0x1000000
    } else {
        0
    }
}

/// The capacity a device reports: decoded from the header, or 0 when the
/// device is too small to hold the header at all.
pub open spec fn decoded_capacity(mem: Seq<u8>) -> int {
    if mem.len() >= 0x1008 {
        nibble_capacity((mem[0x1003] as u32) >> 4u32)
    } else {
        0
    }
}

/// How many sectors a request of `len > 0` bytes at `offset` touches.
pub open spec fn num_sectors(offset: int, len: int) -> int {
    (offset + len - 1) / 4096 - offset / 4096 + 1
}

/// The byte-addressable storage handle: the capacity discovered at
/// construction, and whether the one-time write-unlock sequence has run.
/// It owns no flash-resident data.
pub struct FlashStorage {
    pub capacity: usize,
    pub unlocked: bool,
}

/// What a successful nonempty `write` does, as one relation: the handle is
/// unlocked (running the unlock sequence exactly once if it was not), the
/// written range of the flash is replaced and nothing else, and each touched
/// sector costs exactly one read, one erase and one program cycle.
pub open spec fn write_ok_post(h0: FlashStorage, f0: FlashView, offset: u32, data: Seq<u8>, h1: FlashStorage, f1: FlashView) -> bool {
    &&& h1.capacity == h0.capacity
    &&& h1.unlocked == true
    &&& f1.mem == spliced(f0.mem, offset as int, data)
    &&& f1.reads == f0.reads + num_sectors(offset as int, data.len() as int)
    &&& f1.erases == f0.erases + num_sectors(offset as int, data.len() as int)
    &&& f1.programs == f0.programs + num_sectors(offset as int, data.len() as int)
    &&& f1.unlocks == f0.unlocks + (if h0.unlocked { 0int } else { 1int })
    &&& f1.status == (if h0.unlocked { f0.status } else { f0.status & STATUS_QIE_BIT }) & !STATUS_WEL_BIT
    &&& f1.ctrl == (if h0.unlocked { f0.ctrl } else { f0.ctrl | SPI_WRSR_2B | SPI_WAIT_FLASH_IDLE_EN })
    &&& f1.user == f0.user & !SPI_USR_DUMMY
    &&& f1.user1 == (f0.user1 & !SPI_USR_ADDR_BITLEN_M) | (ESP_ROM_SPIFLASH_W_SIO_ADDR_BITSLEN << SPI_USR_ADDR_BITLEN_S)
    &&& f1.rd_status == 0
    &&& f1.cache0
    &&& f1.cache1
    &&& f1.mem.len() == f0.mem.len()
}

/// Law (round trip): after a successful `write` of `data` at `offset`, the
/// `data.len()` bytes at `offset` — which `read` returns — are exactly
/// `data`, whether or not the range crosses sector boundaries.
pub proof fn lemma_write_read_round_trip(h0: FlashStorage, f0: FlashView, offset: u32, data: Seq<u8>, h1: FlashStorage, f1: FlashView)
    requires
        write_ok_post(h0, f0, offset, data, h1, f1),
        offset + data.len() <= f0.mem.len(),
    ensures
        f1.mem.subrange(offset as int, offset + data.len()) == data,
{
    assert(f1.mem.subrange(offset as int, offset + data.len()) =~= data);
}

/// Law (read-modify-write preservation): a successful `write` changes no
/// byte outside the written range, in particular none of the other bytes of
/// the sectors it touches.
pub proof fn lemma_write_preserves_rest(h0: FlashStorage, f0: FlashView, offset: u32, data: Seq<u8>, h1: FlashStorage, f1: FlashView, i: int)
    requires
        write_ok_post(h0, f0, offset, data, h1, f1),
        0 <= i < f0.mem.len(),
        !(offset <= i < offset + data.len()),
    ensures
        f1.mem[i] == f0.mem[i],
{
}

/// Law (unlock runs once): across three successive nonempty successful
/// writes on one handle that starts locked, the unlock sequence runs during
/// the first write and never again.
pub proof fn lemma_unlock_runs_once(
    h0: FlashStorage,
    f0: FlashView,
    o1: u32,
    d1: Seq<u8>,
    h1: FlashStorage,
    f1: FlashView,
    o2: u32,
    d2: Seq<u8>,
    h2: FlashStorage,
    f2: FlashView,
    o3: u32,
    d3: Seq<u8>,
    h3: FlashStorage,
    f3: FlashView,
)
    requires
        !h0.unlocked,
        write_ok_post(h0, f0, o1, d1, h1, f1),
        write_ok_post(h1, f1, o2, d2, h2, f2),
        write_ok_post(h2, f2, o3, d3, h3, f3),
    ensures
        f3.unlocks == f0.unlocks + 1,
        h3.unlocked,
{
}

proof fn lemma_engine_reg_facts(x: u32, u: u32)
    by (bit_vector)
    ensures
        (x & !SPI_USR_DUMMY) & !SPI_USR_DUMMY == x & !SPI_USR_DUMMY,
        (((u & !SPI_USR_ADDR_BITLEN_M) | (ESP_ROM_SPIFLASH_W_SIO_ADDR_BITSLEN << SPI_USR_ADDR_BITLEN_S)) & !SPI_USR_ADDR_BITLEN_M) | (ESP_ROM_SPIFLASH_W_SIO_ADDR_BITSLEN << SPI_USR_ADDR_BITLEN_S) == (u & !SPI_USR_ADDR_BITLEN_M) | (ESP_ROM_SPIFLASH_W_SIO_ADDR_BITSLEN << SPI_USR_ADDR_BITLEN_S),
{
}

proof fn lemma_ff_and(b: u8)
    by (bit_vector)
    ensures
        0xFF & b == b,
{
}

fn map_code(code: i32) -> (e: FlashStorageError)
    ensures
        e == (if code == -1 {
            FlashStorageError::NotAligned
        } else {
            FlashStorageError::IoError(code)
        }),
{
    if code == -1 {
        FlashStorageError::NotAligned
    } else {
        FlashStorageError::IoError(code)
    }
}

impl FlashStorage {
    /// Probe the device's capacity: read the 8-byte header at the fixed
    /// device offset and decode byte 3's high nibble into one of
    /// {1, 2, 4, 8, 16} MiB, or 0 for an unmapped nibble or a device too
    /// small for the header. The handle starts locked.
    pub fn new(dev: &mut FlashDevice) -> (s: FlashStorage)
        requires
            old(dev).wf(),
        ensures
            final(dev).wf(),
            s.unlocked == false,
            s.capacity as int == decoded_capacity(old(dev)@.flash.mem),
            old(dev)@.flash.mem.len() >= 0x1008 ==> final(dev)@.flash == (FlashView {
                rd_status: old(dev)@.flash.status & 0xFF,
                reads: (old(dev)@.flash.reads + 1) as nat,
                ..old(dev)@.flash
            }),
            old(dev)@.flash.mem.len() < 0x1008 ==> final(dev)@.flash == (FlashView {
                rd_status: old(dev)@.flash.status & 0xFF,
                ..old(dev)@.flash
            }),
            other_core_running(final(dev)@.cores) == other_core_running(old(dev)@.cores),
            final(dev)@.cores.prid == old(dev)@.cores.prid,
    {
        let mut header: Vec<u8> = Vec::new();
        let r = esp_rom_spiflash_read(dev, FLASH_HEADER_OFFSET, &mut header, 8);
        if r != 0 {
            return FlashStorage { capacity: 0, unlocked: false };
        }
        let b3 = header[3];
        let nibble = (b3 as u32) >> 4u32;
        let capacity: usize = if nibble == 0 {
            0x100000
        } else if nibble == 1 {
            0x200000
        } else if nibble == 2 {
            0x400000
        } else if nibble == 3 {
            0x800000
        } else if nibble == 4 {
            0x1000000
        } else {
            0
        };
        FlashStorage { capacity, unlocked: false }
    }

    /// The capacity in bytes discovered at construction.
    pub fn capacity(&self) -> (r: usize)
        ensures
            r == self.capacity,
    {
        self.capacity
    }

    /// Read `bytes.len()` bytes starting at `offset`. Accepts any offset and
    /// length with `offset + bytes.len() <= capacity`; an empty buffer
    /// returns at once; a request beyond the capacity is rejected before any
    /// hardware access. Each touched sector is read whole, once. The handle
    /// must belong to this device: its capacity does not exceed the array.
    pub fn read(&mut self, dev: &mut FlashDevice, offset: u32, bytes: &mut Vec<u8>) -> (res: Result<(), FlashStorageError>)
        requires
            old(dev).wf(),
            old(self).capacity <= old(dev)@.flash.mem.len(),
        ensures
            final(dev).wf(),
            *final(self) == *old(self),
            old(bytes)@.len() == 0 ==> res == Ok::<(), FlashStorageError>(()) && final(dev)@ == old(dev)@ && final(bytes)@ == old(bytes)@,
            old(bytes)@.len() > 0 && offset + old(bytes)@.len() <= old(self).capacity ==> {
                &&& res == Ok::<(), FlashStorageError>(())
                &&& final(bytes)@ == old(dev)@.flash.mem.subrange(offset as int, offset + old(bytes)@.len())
                &&& final(dev)@.flash == (FlashView {
                    rd_status: old(dev)@.flash.status & 0xFF,
                    reads: (old(dev)@.flash.reads + num_sectors(offset as int, old(bytes)@.len() as int)) as nat,
                    ..old(dev)@.flash
                })
            },
            old(bytes)@.len() > 0 && offset + old(bytes)@.len() > old(self).capacity ==> res == Err::<(), FlashStorageError>(FlashStorageError::OutOfBounds) && final(dev)@ == old(dev)@ && final(bytes)@ == old(bytes)@,
            other_core_running(final(dev)@.cores) == other_core_running(old(dev)@.cores),
            final(dev)@.cores.prid == old(dev)@.cores.prid,
    {
        let n = bytes.len();
        if n == 0 {
            return Ok(());
        }
        if (n as u64) > (self.capacity as u64) || (offset as u64) > (self.capacity as u64) - (n as u64) {
            return Err(FlashStorageError::OutOfBounds);
        }
        let ghost f0 = dev@.flash;
        let ghost mut k: int = 0;
        let mut pos: usize = 0;
        let mut secbuf: Vec<u8> = Vec::new();
        while pos < n
            invariant
                dev.wf(),
                f0 == old(dev)@.flash,
                n == bytes@.len(),
                0 < n <= usize::MAX,
                pos <= n,
                offset + n <= self.capacity,
                self.capacity <= f0.mem.len(),
                f0.mem.len() % 4096 == 0,
                *self == *old(self),
                pos == 0 || pos == n || (offset + pos) % 4096 == 0,
                forall|i: int| 0 <= i < pos ==> bytes@[i] == f0.mem[offset + i],
                forall|i: int| pos <= i < n ==> bytes@[i] == old(bytes)@[i],
                dev@.flash == (FlashView {
                    rd_status: (if pos == 0 { f0.rd_status } else { f0.status & 0xFF }),
                    reads: (f0.reads + k) as nat,
                    ..f0
                }),
                k == (if pos == 0 { 0int } else { (offset + pos - 1) / 4096 - offset / 4096 + 1 }),
                other_core_running(dev@.cores) == other_core_running(old(dev)@.cores),
                dev@.cores.prid == old(dev)@.cores.prid,
            decreases n - pos,
        {
            let sector_start: usize = (((offset as usize) + pos) / SECTOR_SIZE) * SECTOR_SIZE;
            let intra: usize = (offset as usize) + pos - sector_start;
            proof {
                assert(sector_start as int + 4096 <= f0.mem.len()) by {
                    let p = offset as int + pos as int;
                    assert(sector_start as int == (p / 4096) * 4096);
                    assert(sector_start as int <= p);
                    assert(p < f0.mem.len());
                };
            }
            let r = esp_rom_spiflash_read(dev, sector_start as u32, &mut secbuf, SECTOR_SIZE as u32);
            if r != 0 {
                return Err(map_code(r));
            }
            let cnt = if SECTOR_SIZE - intra < n - pos {
                SECTOR_SIZE - intra
            } else {
                n - pos
            };
            let mut j: usize = 0;
            while j < cnt
                invariant
                    j <= cnt,
                    cnt <= n - pos,
                    pos + cnt <= n,
                    n == bytes@.len(),
                    intra + cnt <= 4096,
                    secbuf@.len() == 4096,
                    forall|i: int| 0 <= i < pos ==> bytes@[i] == f0.mem[offset + i],
                    forall|i: int| pos <= i < pos + j ==> bytes@[i] == secbuf@[intra + (i - pos)],
                    forall|i: int| pos + j <= i < n ==> bytes@[i] == old(bytes)@[i],
                decreases cnt - j,
            {
                let b = secbuf[intra + j];
                bytes[pos + j] = b;
                j += 1;
            }
            proof {
                let p = offset as int + pos as int;
                assert(secbuf@ == f0.mem.subrange(sector_start as int, sector_start as int + 4096));
                assert forall|i: int| pos <= i < pos + cnt implies bytes@[i] == f0.mem[offset + i] by {
                    assert(bytes@[i] == secbuf@[intra + (i - pos)]);
                    assert(sector_start as int + intra as int == p);
                };
                k = k + 1;
            }
            pos += cnt;
        }
        proof {
            assert(bytes@ =~= f0.mem.subrange(offset as int, offset + n));
            assert(dev@.flash =~= (FlashView {
                rd_status: f0.status & 0xFF,
                reads: (f0.reads + num_sectors(offset as int, n as int)) as nat,
                ..f0
            }));
        }
        Ok(())
    }

    /// Write `bytes` starting at `offset`. Accepts any offset and length
    /// with `offset + bytes.len() <= capacity`; an empty buffer returns at
    /// once; a request beyond the capacity is rejected before any hardware
    /// access. The first nonempty write on this handle runs the one-time
    /// unlock sequence. Each touched sector gets exactly one whole-sector
    /// read, erase and program cycle, its prior content read before it is
    /// overwritten; bytes outside the written range are preserved. The handle
    /// must belong to this device: its capacity does not exceed the array.
    pub fn write(&mut self, dev: &mut FlashDevice, offset: u32, bytes: &Vec<u8>) -> (res: Result<(), FlashStorageError>)
        requires
            old(dev).wf(),
            old(self).capacity <= old(dev)@.flash.mem.len(),
        ensures
            final(dev).wf(),
            final(self).capacity == old(self).capacity,
            bytes@.len() == 0 ==> res == Ok::<(), FlashStorageError>(()) && final(dev)@ == old(dev)@ && *final(self) == *old(self),
            bytes@.len() > 0 && offset + bytes@.len() > old(self).capacity ==> res == Err::<(), FlashStorageError>(FlashStorageError::OutOfBounds) && final(dev)@ == old(dev)@ && *final(self) == *old(self),
            bytes@.len() > 0 && offset + bytes@.len() <= old(self).capacity ==> res == Ok::<(), FlashStorageError>(()) && write_ok_post(*old(self), old(dev)@.flash, offset, bytes@, *final(self), final(dev)@.flash),
            other_core_running(final(dev)@.cores) == other_core_running(old(dev)@.cores),
            final(dev)@.cores.prid == old(dev)@.cores.prid,
    {
        let n = bytes.len();
        if n == 0 {
            return Ok(());
        }
        if (n as u64) > (self.capacity as u64) || (offset as u64) > (self.capacity as u64) - (n as u64) {
            return Err(FlashStorageError::OutOfBounds);
        }
        if !self.unlocked {
            let r = esp_rom_spiflash_unlock(dev);
            if r != 0 {
                return Err(FlashStorageError::CantUnlock);
            }
            self.unlocked = true;
        }
        let ghost f1 = dev@.flash;
        let ghost mut k: int = 0;
        let mut pos: usize = 0;
        let mut secbuf: Vec<u8> = Vec::new();
        proof {
            assert(spliced(f1.mem, offset as int, bytes@.take(0)) =~= f1.mem);
        }
        while pos < n
            invariant
                dev.wf(),
                n == bytes@.len(),
                0 < n <= usize::MAX,
                pos <= n,
                offset + n <= self.capacity,
                self.capacity <= f1.mem.len(),
                f1.mem.len() % 4096 == 0,
                f1.mem.len() <= FLASH_ADDR_SPACE,
                self.unlocked,
                self.capacity == old(self).capacity,
                pos == 0 || pos == n || (offset + pos) % 4096 == 0,
                dev@.flash.mem == spliced(f1.mem, offset as int, bytes@.take(pos as int)),
                dev@.flash.status == (if pos == 0 { f1.status } else { f1.status & !STATUS_WEL_BIT }),
                dev@.flash.rd_status == (if pos == 0 { f1.rd_status } else { 0u32 }),
                dev@.flash.user == (if pos == 0 { f1.user } else { f1.user & !SPI_USR_DUMMY }),
                dev@.flash.user1 == (if pos == 0 { f1.user1 } else { (f1.user1 & !SPI_USR_ADDR_BITLEN_M) | (ESP_ROM_SPIFLASH_W_SIO_ADDR_BITSLEN << SPI_USR_ADDR_BITLEN_S) }),
                dev@.flash.ctrl == f1.ctrl,
                pos > 0 ==> dev@.flash.cache0 && dev@.flash.cache1,
                pos == 0 ==> dev@.flash.cache0 == f1.cache0 && dev@.flash.cache1 == f1.cache1,
                dev@.flash.fifo.len() == 16,
                dev@.flash.reads == (f1.reads + k) as nat,
                dev@.flash.erases == (f1.erases + k) as nat,
                dev@.flash.programs == (f1.programs + k) as nat,
                dev@.flash.unlocks == f1.unlocks,
                k == (if pos == 0 { 0int } else { (offset + pos - 1) / 4096 - offset / 4096 + 1 }),
                other_core_running(dev@.cores) == other_core_running(old(dev)@.cores),
                dev@.cores.prid == old(dev)@.cores.prid,
            decreases n - pos,
        {
            let ghost fpre = dev@.flash;
            let sector_start: usize = (((offset as usize) + pos) / SECTOR_SIZE) * SECTOR_SIZE;
            let intra: usize = (offset as usize) + pos - sector_start;
            proof {
                assert(sector_start as int + 4096 <= f1.mem.len()) by {
                    let p = offset as int + pos as int;
                    assert(sector_start as int == (p / 4096) * 4096);
                    assert(sector_start as int <= p);
                    assert(p < f1.mem.len());
                };
            }
            // 1. Read the whole sector.
            let r = esp_rom_spiflash_read(dev, sector_start as u32, &mut secbuf, SECTOR_SIZE as u32);
            if r != 0 {
                return Err(map_code(r));
            }
            let cnt = if SECTOR_SIZE - intra < n - pos {
                SECTOR_SIZE - intra
            } else {
                n - pos
            };
            // 2. Splice the request's bytes into the sector buffer.
            let mut j: usize = 0;
            while j < cnt
                invariant
                    j <= cnt,
                    pos + cnt <= n,
                    n == bytes@.len(),
                    intra + cnt <= 4096,
                    secbuf@.len() == 4096,
                    forall|q: int| 0 <= q < intra ==> secbuf@[q] == fpre.mem[sector_start + q],
                    forall|q: int| intra <= q < intra + j ==> secbuf@[q] == bytes@[pos + (q - intra)],
                    forall|q: int| intra + j <= q < 4096 ==> secbuf@[q] == fpre.mem[sector_start + q],
                decreases cnt - j,
            {
                let b = bytes[pos + j];
                secbuf[intra + j] = b;
                j += 1;
            }
            // 3. Erase the sector.
            let r = esp_rom_spiflash_erase_sector(dev, (sector_start / SECTOR_SIZE) as u32);
            if r != 0 {
                return Err(map_code(r));
            }
            // 4. Program the whole modified sector back.
            let r = esp_rom_spiflash_write(dev, sector_start as u32, &secbuf);
            if r != 0 {
                return Err(map_code(r));
            }
            proof {
                lemma_status_bit_facts(f1.status);
                lemma_status_bit_facts(fpre.status);
                lemma_engine_reg_facts(f1.user, f1.user1);
                let p = offset as int + pos as int;
                let ss = sector_start as int;
                assert(ss + intra as int == p);
                assert forall|i: int| 0 <= i < f1.mem.len() implies dev@.flash.mem[i] == spliced(f1.mem, offset as int, bytes@.take(pos as int + cnt as int))[i] by {
                    if ss <= i < ss + 4096 {
                        lemma_ff_and(secbuf@[i - ss]);
                        assert(dev@.flash.mem[i] == secbuf@[i - ss]);
                        if p <= i < p + cnt {
                            assert(secbuf@[i - ss] == bytes@[i - offset]);
                        } else {
                            assert(secbuf@[i - ss] == fpre.mem[i]);
                        }
                    } else {
                        assert(dev@.flash.mem[i] == fpre.mem[i]);
                    }
                };
                assert(dev@.flash.mem =~= spliced(f1.mem, offset as int, bytes@.take(pos as int + cnt as int)));
                k = k + 1;
            }
            pos += cnt;
        }
        proof {
            assert(bytes@.take(pos as int) =~= bytes@);
        }
        Ok(())
    }
}

} // verus!
