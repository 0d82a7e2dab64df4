use esp_storage::device::FlashDevice;
use esp_storage::FlashStorage;
use esp_storage::FlashStorageError;

/// A 1 MiB device (header nibble 0x0) whose array starts erased to 0xFF.
fn one_mib_device() -> FlashDevice {
    let mut mem = vec![0xFFu8; 0x100000];
    mem[0x1003] = 0x00;
    FlashDevice::new(mem, 0x200, 0, 0, 0)
}

#[test]
fn capacity_nibble_2_is_4_mib() {
    let mut mem = vec![0xFFu8; 0x2000];
    mem[0x1003] = 0x20;
    let mut dev = FlashDevice::new(mem, 0, 0, 0, 0);
    let flash = FlashStorage::new(&mut dev);
    assert_eq!(flash.capacity(), 4 * 1024 * 1024);
}

#[test]
fn capacity_nibble_5_is_unmapped() {
    let mut mem = vec![0xFFu8; 0x2000];
    mem[0x1003] = 0x50;
    let mut dev = FlashDevice::new(mem, 0, 0, 0, 0);
    let flash = FlashStorage::new(&mut dev);
    assert_eq!(flash.capacity(), 0);
}

#[test]
fn capacity_all_mapped_nibbles() {
    let expected: [(u8, usize); 5] = [
        (0x00, 0x100000),
        (0x10, 0x200000),
        (0x20, 0x400000),
        (0x30, 0x800000),
        (0x40, 0x1000000),
    ];
    for (byte3, cap) in expected {
        let mut mem = vec![0xFFu8; 0x2000];
        mem[0x1003] = byte3;
        let mut dev = FlashDevice::new(mem, 0, 0, 0, 0);
        let flash = FlashStorage::new(&mut dev);
        assert_eq!(flash.capacity(), cap);
    }
}

#[test]
fn capacity_device_too_small_for_header() {
    let mem = vec![0xFFu8; 0x1000];
    let mut dev = FlashDevice::new(mem, 0, 0, 0, 0);
    let flash = FlashStorage::new(&mut dev);
    assert_eq!(flash.capacity(), 0);
}

#[test]
fn round_trip_within_one_sector() {
    let mut dev = one_mib_device();
    let mut flash = FlashStorage::new(&mut dev);
    assert_eq!(flash.capacity(), 0x100000);

    let data: Vec<u8> = (0u32..16).map(|i| (i * 7 + 3) as u8).collect();
    flash.write(&mut dev, 100, &data).unwrap();

    let mut back = vec![0u8; 16];
    flash.read(&mut dev, 100, &mut back).unwrap();
    assert_eq!(back, data);
}

#[test]
fn round_trip_spanning_sector_boundary() {
    let mut dev = one_mib_device();
    let mut flash = FlashStorage::new(&mut dev);

    let data: Vec<u8> = (0u32..12).map(|i| (0x90 + i) as u8).collect();
    flash.write(&mut dev, 4090, &data).unwrap();

    let mut back = vec![0u8; 12];
    flash.read(&mut dev, 4090, &mut back).unwrap();
    assert_eq!(back, data);
}

#[test]
fn round_trip_many_sectors() {
    let mut dev = one_mib_device();
    let mut flash = FlashStorage::new(&mut dev);

    let data: Vec<u8> = (0u32..9000).map(|i| (i % 251) as u8).collect();
    flash.write(&mut dev, 4000, &data).unwrap();

    let mut back = vec![0u8; 9000];
    flash.read(&mut dev, 4000, &mut back).unwrap();
    assert_eq!(back, data);
}

#[test]
fn read_modify_write_preserves_rest_of_sector() {
    let mut dev = one_mib_device();
    let mut flash = FlashStorage::new(&mut dev);

    let pattern: Vec<u8> = (0u32..4096).map(|i| (i % 253) as u8).collect();
    flash.write(&mut dev, 8192, &pattern).unwrap();

    flash.write(&mut dev, 8192 + 2000, &vec![0xAA, 0xBB, 0xCC, 0xDD]).unwrap();

    let mut back = vec![0u8; 4096];
    flash.read(&mut dev, 8192, &mut back).unwrap();
    for i in 0..4096 {
        if (2000..2004).contains(&i) {
            assert_eq!(back[i], [0xAA, 0xBB, 0xCC, 0xDD][i - 2000]);
        } else {
            assert_eq!(back[i], pattern[i], "byte {} of the sector changed", i);
        }
    }
}

#[test]
fn multi_sector_write_keeps_neighbours() {
    let mut dev = one_mib_device();
    let mut flash = FlashStorage::new(&mut dev);

    // Known content around the target range.
    let before: Vec<u8> = (0u32..0x4000).map(|i| (i % 127) as u8).collect();
    flash.write(&mut dev, 0x8000, &before).unwrap();

    // A write spanning three sectors, not aligned on either side.
    let data: Vec<u8> = (0u32..9000).map(|i| (255 - (i % 256)) as u8).collect();
    flash.write(&mut dev, 0x8000 + 500, &data).unwrap();

    let mut back = vec![0u8; 0x4000];
    flash.read(&mut dev, 0x8000, &mut back).unwrap();
    for i in 0..0x4000usize {
        if (500..500 + 9000).contains(&i) {
            assert_eq!(back[i], data[i - 500]);
        } else {
            assert_eq!(back[i], before[i]);
        }
    }
}

#[test]
fn unlock_runs_exactly_once_across_three_writes() {
    let mut mem = vec![0xFFu8; 0x100000];
    mem[0x1003] = 0x00;
    // Protection-style bits set in the high status byte, plus quad-enable.
    let mut dev = FlashDevice::new(mem, 0x3E00, 0, 0, 0);
    let mut flash = FlashStorage::new(&mut dev);
    assert!(!flash.unlocked);

    // First write runs the unlock sequence: everything but quad-enable is
    // cleared from the status register.
    flash.write(&mut dev, 0, &vec![1, 2, 3, 4]).unwrap();
    assert!(flash.unlocked);
    assert_eq!(dev.flash_status(), 0x200);

    // Re-set the protection bits; the next two writes must not clear them,
    // which shows the unlock sequence did not run again.
    dev.set_flash_status(0x3C00);
    flash.write(&mut dev, 10, &vec![5, 6, 7, 8]).unwrap();
    assert!(flash.unlocked);
    assert_eq!(dev.flash_status(), 0x3C00);

    flash.write(&mut dev, 20, &vec![9, 10, 11, 12]).unwrap();
    assert_eq!(dev.flash_status(), 0x3C00);
}

#[test]
fn rmw_increment_scenario_at_0x9000() {
    let mut dev = one_mib_device();
    let mut flash = FlashStorage::new(&mut dev);

    let flash_addr = 0x9000;
    let mut bytes = vec![0u8; 32];
    flash.read(&mut dev, flash_addr, &mut bytes).unwrap();
    // The erased array reads back all-ones.
    assert!(bytes.iter().all(|&b| b == 0xFF));

    let deltas = [1u8, 2, 3, 4, 1, 2, 3, 4];
    for (i, d) in deltas.iter().enumerate() {
        bytes[i] = bytes[i].wrapping_add(*d);
    }
    flash.write(&mut dev, flash_addr, &bytes).unwrap();

    let mut reread = vec![0u8; 32];
    flash.read(&mut dev, flash_addr, &mut reread).unwrap();
    // 0xFF wraps past 255.
    assert_eq!(&reread[..8], &[0, 1, 2, 3, 0, 1, 2, 3]);
    assert_eq!(reread, bytes);

    // The same addition a second time increments the stored values again.
    for (i, d) in deltas.iter().enumerate() {
        reread[i] = reread[i].wrapping_add(*d);
    }
    flash.write(&mut dev, flash_addr, &reread).unwrap();

    let mut third = vec![0u8; 8];
    flash.read(&mut dev, flash_addr, &mut third).unwrap();
    assert_eq!(third, vec![1, 3, 5, 7, 1, 3, 5, 7]);
}

#[test]
fn out_of_bounds_requests_are_rejected() {
    let mut dev = one_mib_device();
    let mut flash = FlashStorage::new(&mut dev);

    let r = flash.write(&mut dev, 0x100000 - 2, &vec![1, 2, 3, 4]);
    assert_eq!(r, Err(FlashStorageError::OutOfBounds));

    let mut buf = vec![0u8; 4];
    let r = flash.read(&mut dev, 0x100000 - 2, &mut buf);
    assert_eq!(r, Err(FlashStorageError::OutOfBounds));
    assert_eq!(buf, vec![0u8; 4]);

    // A rejected write leaves the handle locked: no hardware was touched.
    assert!(!flash.unlocked);
}

#[test]
fn empty_requests_return_immediately() {
    let mut dev = one_mib_device();
    let mut flash = FlashStorage::new(&mut dev);

    let status_before = dev.flash_status();
    flash.write(&mut dev, 12345, &Vec::new()).unwrap();
    let mut empty: Vec<u8> = Vec::new();
    flash.read(&mut dev, 12345, &mut empty).unwrap();
    assert_eq!(empty.len(), 0);
    // Even an empty write far beyond the capacity returns at once.
    flash.write(&mut dev, 0xFFFF_FFFF, &Vec::new()).unwrap();
    assert_eq!(dev.flash_status(), status_before);
    assert!(!flash.unlocked);
}
