use esp_storage::coordinator::is_other_core_running;
use esp_storage::coordinator::park_other_core;
use esp_storage::coordinator::unpark_other_core;
use esp_storage::device::FlashDevice;
use esp_storage::protocol::esp_rom_spiflash_erase_sector;
use esp_storage::protocol::esp_rom_spiflash_read;
use esp_storage::protocol::esp_rom_spiflash_unlock;
use esp_storage::protocol::esp_rom_spiflash_write;

fn small_device() -> FlashDevice {
    let mem = vec![0xFFu8; 0x8000];
    FlashDevice::new(mem, 0x200, 0, 0, 0)
}

#[test]
fn park_reports_and_halts_a_running_core() {
    let mut dev = small_device();
    assert!(is_other_core_running(&dev));
    let was_running = park_other_core(&mut dev);
    assert!(was_running);
    assert!(!is_other_core_running(&dev));
    unpark_other_core(&mut dev, was_running);
    assert!(is_other_core_running(&dev));
}

#[test]
fn park_reports_an_already_halted_core() {
    // The other core's stall bits are already set before parking.
    let mem = vec![0xFFu8; 0x8000];
    let mut dev = FlashDevice::new(mem, 0, 0, 0b10, 0);
    assert!(!is_other_core_running(&dev));
    let was_running = park_other_core(&mut dev);
    assert!(!was_running);
    // Unparking with the reported flag must not resume it.
    unpark_other_core(&mut dev, was_running);
    assert!(!is_other_core_running(&dev));
}

#[test]
fn unpark_false_never_resumes() {
    let mut dev = small_device();
    let _ = park_other_core(&mut dev);
    unpark_other_core(&mut dev, false);
    assert!(!is_other_core_running(&dev));
    unpark_other_core(&mut dev, true);
    assert!(is_other_core_running(&dev));
}

#[test]
fn primitives_restore_the_other_core() {
    let mut dev = small_device();
    assert!(is_other_core_running(&dev));
    let mut buf: Vec<u8> = Vec::new();
    assert_eq!(esp_rom_spiflash_read(&mut dev, 0, &mut buf, 16), 0);
    assert!(is_other_core_running(&dev));
}

#[test]
fn raw_read_rejects_unaligned_length() {
    let mut dev = small_device();
    let mut buf = vec![7u8; 3];
    let r = esp_rom_spiflash_read(&mut dev, 0, &mut buf, 3);
    assert_eq!(r, -1);
    assert_eq!(buf, vec![7u8; 3]);
}

#[test]
fn raw_write_rejects_unaligned_length() {
    let mut dev = small_device();
    let r = esp_rom_spiflash_write(&mut dev, 0, &vec![1, 2, 3, 4, 5]);
    assert_eq!(r, -1);
}

#[test]
fn raw_read_rejects_out_of_range() {
    let mut dev = small_device();
    let mut buf: Vec<u8> = Vec::new();
    let r = esp_rom_spiflash_read(&mut dev, 0x8000 - 4, &mut buf, 8);
    assert_eq!(r, 1);
    assert!(buf.is_empty());
}

#[test]
fn raw_erase_rejects_out_of_range_sector() {
    let mut dev = small_device();
    assert_eq!(esp_rom_spiflash_erase_sector(&mut dev, 8), 1);
    assert_eq!(esp_rom_spiflash_erase_sector(&mut dev, 7), 0);
}

#[test]
fn raw_erase_returns_sector_to_all_ones() {
    let mut dev = small_device();
    let data = vec![0x00u8; 8];
    assert_eq!(esp_rom_spiflash_write(&mut dev, 4096, &data), 0);
    assert_eq!(dev.mem_byte(4096), 0x00);
    assert_eq!(esp_rom_spiflash_erase_sector(&mut dev, 1), 0);
    for i in 0..4096usize {
        assert_eq!(dev.mem_byte(4096 + i), 0xFF);
    }
}

#[test]
fn raw_program_clears_bits_nor_style() {
    let mut dev = small_device();
    // Programming can only clear bits: after 0xF0 then 0x3C the byte holds
    // the AND of both against the erased 0xFF.
    assert_eq!(esp_rom_spiflash_write(&mut dev, 0, &vec![0xF0, 0xFF, 0xFF, 0xFF]), 0);
    assert_eq!(dev.mem_byte(0), 0xF0);
    assert_eq!(esp_rom_spiflash_write(&mut dev, 0, &vec![0x3C, 0xFF, 0xFF, 0xFF]), 0);
    assert_eq!(dev.mem_byte(0), 0x30);
}

#[test]
fn raw_write_crosses_fifo_blocks() {
    let mut dev = small_device();
    // 100 bytes: three full 32-byte blocks and one 4-byte tail.
    let data: Vec<u8> = (0u32..100).map(|i| i as u8).collect();
    assert_eq!(esp_rom_spiflash_write(&mut dev, 256, &data), 0);
    let mut back: Vec<u8> = Vec::new();
    assert_eq!(esp_rom_spiflash_read(&mut dev, 256, &mut back, 100), 0);
    assert_eq!(back, data);
}

#[test]
fn unlock_preserves_only_quad_enable() {
    let mut dev = FlashDevice::new(vec![0xFFu8; 0x2000], 0x3E0C, 0, 0, 0);
    assert_eq!(esp_rom_spiflash_unlock(&mut dev), 0);
    assert_eq!(dev.flash_status(), 0x200);

    let mut dev2 = FlashDevice::new(vec![0xFFu8; 0x2000], 0x1C00, 0, 0, 0);
    assert_eq!(esp_rom_spiflash_unlock(&mut dev2), 0);
    assert_eq!(dev2.flash_status(), 0);
}
