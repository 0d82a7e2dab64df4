//! Executable model of the flash hardware.
//!
//! A [`FlashDevice`] value stands for everything the driver touches: the NOR
//! flash array and its 16-bit status register, the registers of the SPI
//! controller that drives the flash, the two cores' read caches, and the
//! core-stall unit. The model is synchronous: a command written to the
//! command register completes at once, so the command register always reads
//! back zero and the write-in-progress status bit is never seen set. The
//! polling loops of the protocol layer are kept, and exit on their first
//! check.
//!
//! Programming obeys NOR semantics: a program operation can only clear bits
//! (`new = old & data`), so reading back the programmed bytes requires the
//! sector to have been erased to `0xFF` first.

use vstd::prelude::*;

verus! {

// SPI controller register map. SPI peripheral 1 drives the flash;
// SPI peripheral 0 is the cache's internal state machine.
pub const SPI_BASE_REG: u32 = 0x3ff42000;
pub const SPI0_BASE_REG: u32 = 0x3ff43000;
pub const SPI_EXT2_REG: u32 = SPI_BASE_REG + 0xF8;
pub const SPI0_EXT2_REG: u32 = SPI0_BASE_REG + 0xF8;
pub const SPI_RD_STATUS_REG: u32 = SPI_BASE_REG + 0x10;
pub const SPI_ST: u32 = 0x7;
pub const SPI_CMD_REG: u32 = SPI_BASE_REG + 0x00;
pub const SPI_CTRL_REG: u32 = SPI_BASE_REG + 0x08;
pub const SPI_USER_REG: u32 = SPI_BASE_REG + 0x1c;
pub const SPI_USER1_REG: u32 = SPI_BASE_REG + 0x20;
pub const PERIPHS_SPI_FLASH_ADDR: u32 = SPI_BASE_REG + 4;
pub const PERIPHS_SPI_FLASH_C0: u32 = SPI_BASE_REG + 0x80;
pub const SPI_USR_DUMMY: u32 = 1 << 29;
pub const ESP_ROM_SPIFLASH_W_SIO_ADDR_BITSLEN: u32 = 23;
pub const SPI_USR_ADDR_BITLEN_M: u32 = 0x3f << 26;
pub const SPI_USR_ADDR_BITLEN_S: u32 = 26;

// Command-register bits.
pub const SPI_FLASH_WREN: u32 = 1 << 30;
pub const SPI_FLASH_WRDI: u32 = 1 << 29;
pub const SPI_FLASH_RDSR: u32 = 1 << 27;
pub const SPI_FLASH_PP: u32 = 1 << 25;

// Control-register bits.
pub const SPI_WRSR_2B: u32 = 1 << 22;
pub const SPI_WAIT_FLASH_IDLE_EN: u32 = 1 << 12;

// Flash status-register bits.
pub const STATUS_WIP_BIT: u32 = 1 << 0;
pub const STATUS_WEL_BIT: u32 = 1 << 1;
pub const STATUS_QIE_BIT: u32 = 1 << 9;

/// Smallest erasable unit of the device.
pub const SECTOR_SIZE: usize = 4096;

/// The flash is addressed with 24 bits.
pub const FLASH_ADDR_SPACE: usize = 0x1000000;

/// The controller's program FIFO holds 16 words of 4 bytes.
pub const FIFO_BYTES: usize = 64;

/// The ROM's descriptor of the attached flash chip.
#[derive(Clone, Copy, Debug)]
pub struct EspRomSpiflashChipT {
    pub device_id: u32,
    pub chip_size: u32,
    pub block_size: u32,
    pub sector_size: u32,
    pub page_size: u32,
    pub status_mask: u32,
}

/// Ghost counters of the primitive operations the device has performed.
pub ghost struct OpCounts {
    pub reads: nat,
    pub erases: nat,
    pub programs: nat,
    pub unlocks: nat,
}

/// Ghost state of the flash chip and the SPI controller, with the two
/// cores' cache-enable bits and the operation counters.
#[verifier::ext_equal]
pub ghost struct FlashView {
    /// Contents of the flash array.
    pub mem: Seq<u8>,
    /// 16-bit flash status register (WIP, WEL, QIE, protection bits).
    pub status: u32,
    pub rd_status: u32,
    pub user: u32,
    pub user1: u32,
    pub ctrl: u32,
    pub addr: u32,
    /// The 16 program-FIFO words.
    pub fifo: Seq<u32>,
    pub cache0: bool,
    pub cache1: bool,
    pub reads: nat,
    pub erases: nat,
    pub programs: nat,
    pub unlocks: nat,
}

/// Ghost state of the core-stall unit and the identity of the executing core.
#[verifier::ext_equal]
pub ghost struct CoreView {
    pub options0: u32,
    pub sw_cpu_stall: u32,
    pub prid: u32,
}

#[verifier::ext_equal]
pub ghost struct DeviceView {
    pub flash: FlashView,
    pub cores: CoreView,
}

/// What a well-formed device looks like: a whole number of sectors, no more
/// than the 24-bit address space, 16 FIFO words, and a 16-bit status register
/// whose write-in-progress bit is clear while no operation runs.
pub open spec fn flash_wf(f: FlashView) -> bool {
    &&& f.mem.len() % 4096 == 0
    &&& f.mem.len() <= FLASH_ADDR_SPACE
    &&& f.fifo.len() == 16
    &&& f.status & STATUS_WIP_BIT == 0
    &&& f.status <= 0xFFFF
}

/// The byte at offset `j` of the program FIFO.
pub open spec fn fifo_byte(fifo: Seq<u32>, j: int) -> u8 {
    ((fifo[j / 4] >> (((j % 4) * 8) as u32)) & 0xFF) as u8
}

/// NOR programming: bits can only be cleared, never set.
pub open spec fn pp_programmed(mem: Seq<u8>, dest: int, n: int, fifo: Seq<u32>) -> Seq<u8> {
    Seq::new(mem.len(), |i: int| if dest <= i < dest + n { mem[i] & fifo_byte(fifo, i - dest) } else { mem[i] })
}

/// Erasing returns a whole sector to all-ones.
pub open spec fn sector_erased(mem: Seq<u8>, start: int) -> Seq<u8> {
    Seq::new(mem.len(), |i: int| if start <= i < start + 4096 { 0xFFu8 } else { mem[i] })
}

pub open spec fn is_fifo_reg(address: u32) -> bool {
    &&& PERIPHS_SPI_FLASH_C0 <= address < PERIPHS_SPI_FLASH_C0 + 64
    &&& (address - PERIPHS_SPI_FLASH_C0) % 4 == 0
}

pub open spec fn fifo_index(address: u32) -> int {
    (address - PERIPHS_SPI_FLASH_C0) / 4
}

/// What a register read returns. The two controller state-machine registers
/// and the command register always read zero: the model completes every
/// command synchronously.
pub open spec fn reg_read(f: FlashView, address: u32) -> u32 {
    if address == SPI_RD_STATUS_REG {
        f.rd_status
    } else if address == SPI_USER_REG {
        f.user
    } else if address == SPI_USER1_REG {
        f.user1
    } else if address == SPI_CTRL_REG {
        f.ctrl
    } else if address == PERIPHS_SPI_FLASH_ADDR {
        f.addr
    } else if is_fifo_reg(address) {
        f.fifo[fifo_index(address)]
    } else {
        0
    }
}

/// How many bytes a program command covers: the length field of the address
/// register, clipped to the FIFO's 64 bytes.
pub open spec fn pp_count(addr: u32) -> int {
    if addr >> 24u32 <= 64 { (addr >> 24u32) as int } else { 64 }
}

/// Effect of the page-program command: if the write-enable latch is set,
/// `pp_count` FIFO bytes are AND-programmed at the address-register target
/// (bytes beyond the end of the array are ignored) and the latch clears;
/// without the latch the command is ignored.
pub open spec fn cmd_program(f: FlashView) -> FlashView {
    if f.status & STATUS_WEL_BIT != 0 {
        (FlashView {
            mem: pp_programmed(f.mem, (f.addr & 0xFFFFFF) as int, pp_count(f.addr), f.fifo),
            status: f.status & !STATUS_WEL_BIT,
            ..f
        })
    } else {
        f
    }
}

/// Effect of writing the command register: read-status latches the low
/// status byte into the controller's status register; write-enable and
/// write-disable set and clear the write-enable latch; page-program runs
/// `cmd_program`. The command completes at once.
pub open spec fn cmd_issued(f: FlashView, value: u32) -> FlashView {
    if value & SPI_FLASH_RDSR != 0 {
        (FlashView { rd_status: f.status & 0xFF, ..f })
    } else if value & SPI_FLASH_WREN != 0 {
        (FlashView { status: f.status | STATUS_WEL_BIT, ..f })
    } else if value & SPI_FLASH_WRDI != 0 {
        (FlashView { status: f.status & !STATUS_WEL_BIT, ..f })
    } else if value & SPI_FLASH_PP != 0 {
        cmd_program(f)
    } else {
        f
    }
}

/// Effect of a register write.
pub open spec fn reg_write(f: FlashView, address: u32, value: u32) -> FlashView {
    if address == SPI_RD_STATUS_REG {
        (FlashView { rd_status: value, ..f })
    } else if address == SPI_USER_REG {
        (FlashView { user: value, ..f })
    } else if address == SPI_USER1_REG {
        (FlashView { user1: value, ..f })
    } else if address == SPI_CTRL_REG {
        (FlashView { ctrl: value, ..f })
    } else if address == PERIPHS_SPI_FLASH_ADDR {
        (FlashView { addr: value, ..f })
    } else if is_fifo_reg(address) {
        (FlashView { fifo: f.fifo.update(fifo_index(address), value), ..f })
    } else if address == SPI_CMD_REG {
        cmd_issued(f, value)
    } else {
        f
    }
}

/// What the ROM's status-write routine leaves in the flash status register:
/// nothing without the write-enable latch; with it, the full 16 bits in
/// two-byte mode, or only the low byte otherwise. The write-in-progress and
/// write-enable bits are hardware-owned and end up clear.
pub open spec fn status_written(f: FlashView, value: u32) -> u32 {
    if f.status & STATUS_WEL_BIT == 0 {
        f.status
    } else if f.ctrl & SPI_WRSR_2B != 0 {
        value & 0xFFFC
    } else {
        (f.status & 0xFF00) | (value & 0xFC)
    }
}

/// The model of the hardware the driver runs against: flash array, SPI
/// controller, caches and core-stall unit, as one value.
pub struct FlashDevice {
    mem: Vec<u8>,
    chip: EspRomSpiflashChipT,
    status: u32,
    rd_status: u32,
    user: u32,
    user1: u32,
    ctrl: u32,
    addr: u32,
    fifo: Vec<u32>,
    cache0: bool,
    cache1: bool,
    options0: u32,
    sw_cpu_stall: u32,
    prid: u32,
    counts: Ghost<OpCounts>,
}

impl View for FlashDevice {
    type V = DeviceView;

    closed spec fn view(&self) -> DeviceView {
        DeviceView {
            flash: FlashView {
                mem: self.mem@,
                status: self.status,
                rd_status: self.rd_status,
                user: self.user,
                user1: self.user1,
                ctrl: self.ctrl,
                addr: self.addr,
                fifo: self.fifo@,
                cache0: self.cache0,
                cache1: self.cache1,
                reads: self.counts@.reads,
                erases: self.counts@.erases,
                programs: self.counts@.programs,
                unlocks: self.counts@.unlocks,
            },
            cores: CoreView { options0: self.options0, sw_cpu_stall: self.sw_cpu_stall, prid: self.prid },
        }
    }
}

impl FlashDevice {
    /// The ROM's chip descriptor matches the modeled array.
    pub closed spec fn chip_ok(&self) -> bool {
        &&& self.chip.chip_size as int == self.mem@.len()
        &&& self.chip.sector_size == 4096
    }

    pub open spec fn wf(&self) -> bool {
        &&& flash_wf(self@.flash)
        &&& self.chip_ok()
    }

    /// Build a device holding `mem`, idle, caches on, both cores governed by
    /// the given stall-unit registers, executing on the core named by `prid`.
    pub fn new(mem: Vec<u8>, status: u32, prid: u32, options0: u32, sw_cpu_stall: u32) -> (d: FlashDevice)
        requires
            mem@.len() % 4096 == 0,
            mem@.len() <= FLASH_ADDR_SPACE,
            status & STATUS_WIP_BIT == 0,
            status <= 0xFFFF,
        ensures
            d.wf(),
            d@ == (DeviceView {
                flash: FlashView {
                    mem: mem@,
                    status,
                    rd_status: 0,
                    user: 0,
                    user1: 0,
                    ctrl: 0,
                    addr: 0,
                    fifo: Seq::new(16, |i: int| 0u32),
                    cache0: true,
                    cache1: true,
                    reads: 0,
                    erases: 0,
                    programs: 0,
                    unlocks: 0,
                },
                cores: CoreView { options0, sw_cpu_stall, prid },
            }),
    {
        let chip_size = mem.len() as u32;
        let mut fifo: Vec<u32> = Vec::new();
        while fifo.len() < 16
            invariant
                fifo@.len() <= 16,
                fifo@ == Seq::new(fifo@.len(), |i: int| 0u32),
            decreases 16 - fifo@.len(),
        {
            fifo.push(0);
            proof {
                assert(fifo@ =~= Seq::new(fifo@.len(), |i: int| 0u32));
            }
        }
        let d = FlashDevice {
            mem,
            chip: EspRomSpiflashChipT {
                device_id: 0,
                chip_size,
                block_size: 0x10000,
                sector_size: 4096,
                page_size: 256,
                status_mask: 0xFFFF,
            },
            status,
            rd_status: 0,
            user: 0,
            user1: 0,
            ctrl: 0,
            addr: 0,
            fifo,
            cache0: true,
            cache1: true,
            options0,
            sw_cpu_stall,
            prid,
            counts: Ghost(OpCounts { reads: 0, erases: 0, programs: 0, unlocks: 0 }),
        };
        proof {
            assert(d@.flash =~= (FlashView {
                mem: d@.flash.mem,
                status,
                rd_status: 0,
                user: 0,
                user1: 0,
                ctrl: 0,
                addr: 0,
                fifo: Seq::new(16, |i: int| 0u32),
                cache0: true,
                cache1: true,
                reads: 0,
                erases: 0,
                programs: 0,
                unlocks: 0,
            }));
        }
        d
    }

    /// Current value of the flash status register.
    pub fn flash_status(&self) -> (r: u32)
        ensures
            r == self@.flash.status,
    {
        self.status
    }

    /// Overwrite the flash status register, as an external agent (or the
    /// flashing tool) could between operations.
    pub fn set_flash_status(&mut self, status: u32)
        requires
            old(self).wf(),
            status & STATUS_WIP_BIT == 0,
            status <= 0xFFFF,
        ensures
            final(self).wf(),
            final(self)@ == (DeviceView {
                flash: FlashView { status, ..old(self)@.flash },
                ..old(self)@
            }),
    {
        self.status = status;
    }

    /// Size of the flash array in bytes.
    pub fn mem_len(&self) -> (r: usize)
        ensures
            r == self@.flash.mem.len(),
    {
        self.mem.len()
    }

    /// Direct inspection of one byte of the flash array.
    pub fn mem_byte(&self, i: usize) -> (r: u8)
        requires
            i < self@.flash.mem.len(),
        ensures
            r == self@.flash.mem[i as int],
    {
        self.mem[i]
    }

    pub(crate) fn options0_reg(&self) -> (r: u32)
        ensures
            r == self@.cores.options0,
    {
        self.options0
    }

    pub(crate) fn set_options0_reg(&mut self, v: u32)
        requires
            old(self).wf(),
        ensures
            final(self).wf(),
            final(self)@ == (DeviceView { cores: CoreView { options0: v, ..old(self)@.cores }, ..old(self)@ }),
    {
        self.options0 = v;
    }

    pub(crate) fn sw_cpu_stall_reg(&self) -> (r: u32)
        ensures
            r == self@.cores.sw_cpu_stall,
    {
        self.sw_cpu_stall
    }

    pub(crate) fn set_sw_cpu_stall_reg(&mut self, v: u32)
        requires
            old(self).wf(),
        ensures
            final(self).wf(),
            final(self)@ == (DeviceView { cores: CoreView { sw_cpu_stall: v, ..old(self)@.cores }, ..old(self)@ }),
    {
        self.sw_cpu_stall = v;
    }

    pub(crate) fn prid_reg(&self) -> (r: u32)
        ensures
            r == self@.cores.prid,
    {
        self.prid
    }

    pub(crate) fn chip_descriptor(&self) -> (r: EspRomSpiflashChipT)
        requires
            self.wf(),
        ensures
            r.chip_size as int == self@.flash.mem.len(),
            r.sector_size == 4096,
    {
        self.chip
    }

    pub(crate) fn set_cache(&mut self, cpu_num: u32, on: bool)
        requires
            old(self).wf(),
        ensures
            final(self).wf(),
            final(self)@ == (DeviceView { flash: cache_set(old(self)@.flash, cpu_num, on), ..old(self)@ }),
    {
        if cpu_num == 0 {
            self.cache0 = on;
        } else if cpu_num == 1 {
            self.cache1 = on;
        }
    }

    pub(crate) fn note_program(&mut self)
        requires
            old(self).wf(),
        ensures
            final(self).wf(),
            final(self)@ == (DeviceView {
                flash: FlashView { programs: old(self)@.flash.programs + 1, ..old(self)@.flash },
                ..old(self)@
            }),
    {
        self.counts = Ghost(OpCounts { programs: self.counts@.programs + 1, ..self.counts@ });
    }

    pub(crate) fn note_unlock(&mut self)
        requires
            old(self).wf(),
        ensures
            final(self).wf(),
            final(self)@ == (DeviceView {
                flash: FlashView { unlocks: old(self)@.flash.unlocks + 1, ..old(self)@.flash },
                ..old(self)@
            }),
    {
        self.counts = Ghost(OpCounts { unlocks: self.counts@.unlocks + 1, ..self.counts@ });
    }

    /// Model of the ROM's flash-read routine: bounds are checked against the
    /// chip descriptor; in bounds, the requested bytes are returned.
    pub(crate) fn rom_read(&mut self, src_addr: u32, len: u32, out: &mut Vec<u8>) -> (r: i32)
        requires
            old(self).wf(),
            len % 4 == 0,
        ensures
            final(self).wf(),
            src_addr + len <= old(self)@.flash.mem.len() ==> {
                &&& r == 0
                &&& final(out)@ == old(self)@.flash.mem.subrange(src_addr as int, src_addr + len)
                &&& final(self)@ == (DeviceView {
                    flash: FlashView { reads: old(self)@.flash.reads + 1, ..old(self)@.flash },
                    ..old(self)@
                })
            },
            src_addr + len > old(self)@.flash.mem.len() ==> {
                &&& r == 1
                &&& final(out)@ == old(out)@
                &&& final(self)@ == old(self)@
            },
    {
        if (src_addr as u64) + (len as u64) > self.mem.len() as u64 {
            return 1;
        }
        out.clear();
        let mut k: usize = 0;
        let src = src_addr as usize;
        while k < len as usize
            invariant
                self@ == old(self)@,
                self.chip_ok(),
                src == src_addr as usize,
                src + len as usize <= self@.flash.mem.len(),
                k <= len as usize,
                out@ == self@.flash.mem.subrange(src as int, src as int + k as int),
            decreases len as usize - k,
        {
            out.push(self.mem[src + k]);
            proof {
                assert(out@ =~= self@.flash.mem.subrange(src as int, src as int + k as int + 1));
            }
            k += 1;
        }
        self.counts = Ghost(OpCounts { reads: self.counts@.reads + 1, ..self.counts@ });
        0
    }

    /// Model of the ROM's sector-erase routine: bounds are checked against
    /// the chip descriptor; in bounds, the sector is returned to all-ones
    /// and the write-enable latch ends clear.
    pub(crate) fn rom_erase_sector(&mut self, sector_number: u32) -> (r: i32)
        requires
            old(self).wf(),
        ensures
            final(self).wf(),
            (sector_number as int) * 4096 + 4096 <= old(self)@.flash.mem.len() ==> {
                &&& r == 0
                &&& final(self)@ == (DeviceView {
                    flash: FlashView {
                        mem: sector_erased(old(self)@.flash.mem, (sector_number as int) * 4096),
                        status: old(self)@.flash.status & !STATUS_WEL_BIT,
                        erases: old(self)@.flash.erases + 1,
                        ..old(self)@.flash
                    },
                    ..old(self)@
                })
            },
            (sector_number as int) * 4096 + 4096 > old(self)@.flash.mem.len() ==> {
                &&& r == 1
                &&& final(self)@ == old(self)@
            },
    {
        if (sector_number as u64) * 4096 + 4096 > self.mem.len() as u64 {
            return 1;
        }
        let start = (sector_number as usize) * 4096;
        let ghost mem0 = self.mem@;
        let mut j: usize = 0;
        while j < 4096
            invariant
                old(self).wf(),
                start + 4096 <= mem0.len(),
                j <= 4096,
                self.mem@ == Seq::new(mem0.len(), |i: int| if start <= i < start + j { 0xFFu8 } else { mem0[i] }),
                (FlashView { mem: mem0, ..self@.flash }) == old(self)@.flash,
                self@.cores == old(self)@.cores,
                self.chip_ok(),
            decreases 4096 - j,
        {
            self.mem[start + j] = 0xFF;
            proof {
                assert(self.mem@ =~= Seq::new(mem0.len(), |i: int| if start <= i < start + j + 1 { 0xFFu8 } else { mem0[i] }));
            }
            j += 1;
        }
        let s = self.status;
        self.status = s & !STATUS_WEL_BIT;
        self.counts = Ghost(OpCounts { erases: self.counts@.erases + 1, ..self.counts@ });
        proof {
            assert(s & !STATUS_WEL_BIT & STATUS_WIP_BIT == 0 && s & !STATUS_WEL_BIT <= 0xFFFF) by (bit_vector)
                requires
                    s & STATUS_WIP_BIT == 0 && s <= 0xFFFF,
            ;
            assert(self.mem@ =~= sector_erased(mem0, (sector_number as int) * 4096));
            assert(self@.flash =~= (FlashView {
                mem: sector_erased(old(self)@.flash.mem, (sector_number as int) * 4096),
                status: old(self)@.flash.status & !STATUS_WEL_BIT,
                erases: old(self)@.flash.erases + 1,
                ..old(self)@.flash
            }));
        }
        0
    }
}

pub open spec fn cache_set(f: FlashView, cpu_num: u32, on: bool) -> FlashView {
    if cpu_num == 0 {
        (FlashView { cache0: on, ..f })
    } else if cpu_num == 1 {
        (FlashView { cache1: on, ..f })
    } else {
        f
    }
}

/// Read a register of the SPI controller.
pub fn read_register(dev: &FlashDevice, address: u32) -> (r: u32)
    requires
        dev.wf(),
    ensures
        r == reg_read(dev@.flash, address),
{
    if address == SPI_RD_STATUS_REG {
        dev.flash_rd_status()
    } else if address == SPI_USER_REG {
        dev.flash_user()
    } else if address == SPI_USER1_REG {
        dev.flash_user1()
    } else if address == SPI_CTRL_REG {
        dev.flash_ctrl()
    } else if address == PERIPHS_SPI_FLASH_ADDR {
        dev.flash_addr()
    } else if PERIPHS_SPI_FLASH_C0 <= address && address < PERIPHS_SPI_FLASH_C0 + 64
        && (address - PERIPHS_SPI_FLASH_C0) % 4 == 0 {
        dev.fifo_word((address - PERIPHS_SPI_FLASH_C0) / 4)
    } else {
        0
    }
}

impl FlashDevice {
    fn flash_rd_status(&self) -> (r: u32)
        ensures
            r == self@.flash.rd_status,
    {
        self.rd_status
    }

    fn flash_user(&self) -> (r: u32)
        ensures
            r == self@.flash.user,
    {
        self.user
    }

    fn flash_user1(&self) -> (r: u32)
        ensures
            r == self@.flash.user1,
    {
        self.user1
    }

    fn flash_ctrl(&self) -> (r: u32)
        ensures
            r == self@.flash.ctrl,
    {
        self.ctrl
    }

    fn flash_addr(&self) -> (r: u32)
        ensures
            r == self@.flash.addr,
    {
        self.addr
    }

    fn fifo_word(&self, i: u32) -> (r: u32)
        requires
            self.wf(),
            i < 16,
        ensures
            r == self@.flash.fifo[i as int],
    {
        self.fifo[i as usize]
    }
}

/// Write a register of the SPI controller; a write to the command register
/// executes the command at once.
pub fn write_register(dev: &mut FlashDevice, address: u32, value: u32)
    requires
        old(dev).wf(),
    ensures
        final(dev).wf(),
        final(dev)@.flash == reg_write(old(dev)@.flash, address, value),
        final(dev)@.cores == old(dev)@.cores,
{
    dev.reg_write_impl(address, value);
}

impl FlashDevice {
    fn reg_write_impl(&mut self, address: u32, value: u32)
        requires
            old(self).wf(),
        ensures
            final(self).wf(),
            final(self)@.flash == reg_write(old(self)@.flash, address, value),
            final(self)@.cores == old(self)@.cores,
    {
        if address == SPI_RD_STATUS_REG {
            self.rd_status = value;
        } else if address == SPI_USER_REG {
            self.user = value;
        } else if address == SPI_USER1_REG {
            self.user1 = value;
        } else if address == SPI_CTRL_REG {
            self.ctrl = value;
        } else if address == PERIPHS_SPI_FLASH_ADDR {
            self.addr = value;
        } else if PERIPHS_SPI_FLASH_C0 <= address && address < PERIPHS_SPI_FLASH_C0 + 64
            && (address - PERIPHS_SPI_FLASH_C0) % 4 == 0 {
            let i = ((address - PERIPHS_SPI_FLASH_C0) / 4) as usize;
            self.fifo[i] = value;
            proof {
                assert(self@.flash =~= (FlashView {
                    fifo: old(self)@.flash.fifo.update(fifo_index(address), value),
                    ..old(self)@.flash
                }));
            }
        } else if address == SPI_CMD_REG {
            self.issue_command(value);
        }
    }

    fn issue_command(&mut self, value: u32)
        requires
            old(self).wf(),
        ensures
            final(self).wf(),
            final(self)@.flash == cmd_issued(old(self)@.flash, value),
            final(self)@.cores == old(self)@.cores,
    {
        let s = self.status;
        if value & SPI_FLASH_RDSR != 0 {
            self.rd_status = s & 0xFF;
        } else if value & SPI_FLASH_WREN != 0 {
            self.status = s | STATUS_WEL_BIT;
            proof {
                assert((s | STATUS_WEL_BIT) & STATUS_WIP_BIT == 0 && (s | STATUS_WEL_BIT) <= 0xFFFF)
                    by (bit_vector)
                    requires
                        s & STATUS_WIP_BIT == 0 && s <= 0xFFFF,
                ;
            }
        } else if value & SPI_FLASH_WRDI != 0 {
            self.status = s & !STATUS_WEL_BIT;
            proof {
                assert((s & !STATUS_WEL_BIT) & STATUS_WIP_BIT == 0 && (s & !STATUS_WEL_BIT) <= 0xFFFF)
                    by (bit_vector)
                    requires
                        s & STATUS_WIP_BIT == 0 && s <= 0xFFFF,
                ;
            }
        } else if value & SPI_FLASH_PP != 0 {
            self.program_from_fifo();
        }
    }

    fn program_from_fifo(&mut self)
        requires
            old(self).wf(),
        ensures
            final(self).wf(),
            final(self)@.flash == cmd_program(old(self)@.flash),
            final(self)@.cores == old(self)@.cores,
    {
        let s = self.status;
        if s & STATUS_WEL_BIT == 0 {
            return;
        }
        let a = self.addr;
        let dest = (a & 0xFFFFFF) as usize;
        let mut n = (a >> 24u32) as usize;
        if n > FIFO_BYTES {
            n = FIFO_BYTES;
        }
        proof {
            assert((a & 0xFFFFFF) < 0x1000000 && (a >> 24u32) <= 0xFF) by (bit_vector);
            assert(n as int == pp_count(a));
        }
        let ghost mem0 = self.mem@;
        let ghost fifo0 = self@.flash.fifo;
        let mut j: usize = 0;
        while j < n
            invariant
                old(self).wf(),
                n <= 64,
                j <= n,
                mem0.len() <= FLASH_ADDR_SPACE,
                dest < 0x1000000,
                fifo0 == old(self)@.flash.fifo,
                mem0 == old(self)@.flash.mem,
                fifo0.len() == 16,
                self.mem@ == pp_programmed(mem0, dest as int, j as int, fifo0),
                (FlashView { mem: mem0, ..self@.flash }) == old(self)@.flash,
                self@.cores == old(self)@.cores,
                self.chip_ok(),
            decreases n - j,
        {
            proof {
                assert(self.mem@.len() == mem0.len());
            }
            let idx = dest + j;
            if idx < self.mem.len() {
                let w = self.fifo[j / 4];
                let sh = ((j % 4) * 8) as u32;
                let b = ((w >> sh) & 0xFF) as u8;
                let cur = self.mem[idx];
                self.mem[idx] = cur & b;
                proof {
                    assert(w == fifo0[j as int / 4]);
                    assert(sh == ((j as int % 4) * 8) as u32);
                    assert(b == fifo_byte(fifo0, j as int));
                    assert(cur == mem0[idx as int]);
                    assert(self.mem@ =~= pp_programmed(mem0, dest as int, j as int + 1, fifo0));
                }
            } else {
                proof {
                    assert(self.mem@ =~= pp_programmed(mem0, dest as int, j as int + 1, fifo0));
                }
            }
            j += 1;
        }
        self.status = s & !STATUS_WEL_BIT;
        proof {
            assert((s & !STATUS_WEL_BIT) & STATUS_WIP_BIT == 0 && (s & !STATUS_WEL_BIT) <= 0xFFFF)
                by (bit_vector)
                requires
                    s & STATUS_WIP_BIT == 0 && s <= 0xFFFF,
            ;
            assert(self@.flash =~= cmd_program(old(self)@.flash));
        }
    }
}

/// Model of the ROM routine that reads the high byte of the flash status
/// register: it lands in bits 8..16 of `status`.
pub(crate) fn spi_read_status_high(dev: &FlashDevice, _flash_chip: &EspRomSpiflashChipT, status: &mut u32) -> (r: i32)
    ensures
        r == 0,
        *final(status) == dev@.flash.status & 0xFF00,
{
    *status = dev.flash_status() & 0xFF00;
    0
}

/// Model of the ROM routine that writes the flash status register; the
/// effect is `status_written`, and needs the write-enable latch.
pub(crate) fn spi_write_status(dev: &mut FlashDevice, _flash_chip: &EspRomSpiflashChipT, status_value: u32) -> (r: i32)
    requires
        old(dev).wf(),
    ensures
        final(dev).wf(),
        r == 0,
        final(dev)@ == (DeviceView {
            flash: FlashView {
                status: status_written(old(dev)@.flash, status_value),
                ..old(dev)@.flash
            },
            ..old(dev)@
        }),
{
    dev.write_status_impl(status_value);
    0
}

impl FlashDevice {
    fn write_status_impl(&mut self, status_value: u32)
        requires
            old(self).wf(),
        ensures
            final(self).wf(),
            final(self)@ == (DeviceView {
                flash: FlashView {
                    status: status_written(old(self)@.flash, status_value),
                    ..old(self)@.flash
                },
                ..old(self)@
            }),
    {
        let s = self.status;
        if s & STATUS_WEL_BIT == 0 {
            proof {
                assert(self@ =~= (DeviceView {
                    flash: FlashView { status: status_written(old(self)@.flash, status_value), ..old(self)@.flash },
                    ..old(self)@
                }));
            }
            return;
        }
        if self.ctrl & SPI_WRSR_2B != 0 {
            let v = status_value & 0xFFFC;
            self.status = v;
            proof {
                assert(v & STATUS_WIP_BIT == 0 && v <= 0xFFFF) by (bit_vector)
                    requires
                        v == status_value & 0xFFFC,
                ;
            }
        } else {
            let v = (s & 0xFF00) | (status_value & 0xFC);
            self.status = v;
            proof {
                assert(v & STATUS_WIP_BIT == 0 && v <= 0xFFFF) by (bit_vector)
                    requires
                        v == (s & 0xFF00) | (status_value & 0xFC) && s <= 0xFFFF,
                ;
            }
        }
    }
}

} // verus!
