use esp_test::filesystem::{
    outcome, AppStorage, FlashImage, FlashRegion, IoError, OutOfBounds, BLOCK_COUNT, BLOCK_SIZE,
    CACHE_SIZE, DEVICE_CAPACITY, ERASED, FLASH_OFFSET, FLASH_SIZE, LOOKAHEAD_SIZE, READ_SIZE,
    WRITE_SIZE,
};

fn pattern(len: usize, seed: u8) -> Vec<u8> {
    (0..len).map(|i| (i as u8).wrapping_mul(31).wrapping_add(seed)).collect()
}

#[test]
fn geometry_is_that_of_the_device() {
    assert_eq!(FLASH_OFFSET, 0x380000);
    assert_eq!(FLASH_SIZE, 307200);
    assert_eq!(BLOCK_SIZE, 4096);
    assert_eq!(READ_SIZE, 16);
    assert_eq!(WRITE_SIZE, 16);
    assert_eq!(BLOCK_COUNT, 75);
    assert_eq!(CACHE_SIZE, 256);
    assert_eq!(LOOKAHEAD_SIZE, 1);
    assert_eq!(DEVICE_CAPACITY, 4 * 1024 * 1024);
    assert!(FlashRegion::app().is_consistent());
    assert_eq!(
        FlashRegion::app(),
        FlashRegion { offset: 0x380000, size: 307200, block_size: 4096, read_size: 16, write_size: 16 }
    );
}

#[test]
fn offsets_become_addresses_by_adding_the_base() {
    let region = FlashRegion::app();
    assert_eq!(region.read_address(0, 16), Ok(0x380000));
    assert_eq!(region.read_address(4096, 256), Ok(0x381000));
    assert_eq!(region.write_address(32, 16), Ok(0x380020));
    assert_eq!(region.erase_range(8192, 4096), Ok((0x382000, 0x383000)));
    assert_eq!(region.erase_range(0, 307200), Ok((0x380000, 0x3cb000)));
    assert_eq!(region.read_address(307200, 0), Ok(0x3cb000));
}

#[test]
fn requests_off_the_grid_are_refused() {
    let region = FlashRegion::app();
    assert_eq!(region.read_address(1, 16), Err(IoError));
    assert_eq!(region.read_address(16, 15), Err(IoError));
    assert_eq!(region.write_address(8, 16), Err(IoError));
    assert_eq!(region.write_address(0, 17), Err(IoError));
    assert_eq!(region.erase_range(16, 4096), Err(IoError));
    assert_eq!(region.erase_range(0, 4095), Err(IoError));
    assert_eq!(region.erase_range(0, 2048), Err(IoError));
    assert_eq!(region.erase_range(0, 0), Err(IoError));
}

#[test]
fn requests_past_the_region_are_refused() {
    let region = FlashRegion::app();
    assert_eq!(region.read_address(307200, 16), Err(IoError));
    assert_eq!(region.write_address(307184, 32), Err(IoError));
    assert_eq!(region.erase_range(303104, 8192), Err(IoError));
    assert_eq!(region.read_address(usize::MAX - 15, 16), Err(IoError));
    assert_eq!(region.read_address(0, usize::MAX - 15), Err(IoError));
}

#[test]
fn new_storage_stands_on_erased_flash() {
    let mut storage = AppStorage::new();
    let mut buf = vec![0u8; 64];
    assert_eq!(storage.read(0, &mut buf), Ok(64));
    assert_eq!(buf, vec![0xff; 64]);
    let flash = storage.into_flash();
    assert_eq!(flash.capacity(), DEVICE_CAPACITY);
    assert!(flash.cells().iter().all(|&cell| cell == ERASED));
}

#[test]
fn write_then_read_returns_the_written_bytes() {
    let mut storage = AppStorage::new();
    for (off, len) in [(0usize, 16usize), (16, 256), (4096, 4096), (307200 - 16, 16), (8000, 0)] {
        let data = pattern(len, off as u8);
        assert_eq!(storage.write(off, &data), Ok(len));
        let mut buf = vec![0u8; len];
        assert_eq!(storage.read(off, &mut buf), Ok(len));
        assert_eq!(buf, data);
    }
}

#[test]
fn written_bytes_land_at_base_plus_offset() {
    let mut storage = AppStorage::new();
    let data = pattern(32, 7);
    assert_eq!(storage.write(48, &data), Ok(32));
    let flash = storage.into_flash();
    let cells = flash.cells();
    assert_eq!(&cells[0x380030..0x380050], &data[..]);
    assert!(cells[..0x380030].iter().all(|&cell| cell == 0xff));
    assert!(cells[0x380050..].iter().all(|&cell| cell == 0xff));
}

#[test]
fn write_does_not_erase_first() {
    let mut storage = AppStorage::new();
    assert_eq!(storage.write(0, &[0x0f; 16]), Ok(16));
    assert_eq!(storage.write(0, &[0x3c; 16]), Ok(16));
    let mut buf = [0u8; 16];
    assert_eq!(storage.read(0, &mut buf), Ok(16));
    assert_eq!(buf, [0x0c; 16]);
}

#[test]
fn erase_write_read_round_trips_on_used_flash() {
    let mut storage = AppStorage::new();
    assert_eq!(storage.write(4096, &[0u8; 4096]), Ok(4096));
    assert_eq!(storage.erase(4096, 4096), Ok(4096));
    let data = pattern(4096, 3);
    assert_eq!(storage.write(4096, &data), Ok(4096));
    let mut buf = vec![0u8; 4096];
    assert_eq!(storage.read(4096, &mut buf), Ok(4096));
    assert_eq!(buf, data);
}

#[test]
fn erase_clears_whole_blocks_only() {
    let mut storage = AppStorage::new();
    assert_eq!(storage.write(0, &vec![0u8; 3 * 4096]), Ok(3 * 4096));
    assert_eq!(storage.erase(4096, 4096), Ok(4096));
    let mut buf = vec![0u8; 3 * 4096];
    assert_eq!(storage.read(0, &mut buf), Ok(3 * 4096));
    assert!(buf[..4096].iter().all(|&b| b == 0));
    assert!(buf[4096..8192].iter().all(|&b| b == 0xff));
    assert!(buf[8192..].iter().all(|&b| b == 0));
}

#[test]
fn misaligned_requests_fail_and_change_nothing() {
    let mut storage = AppStorage::new();
    assert_eq!(storage.write(0, &pattern(4096, 1)), Ok(4096));
    let before = storage.clone();

    assert_eq!(storage.write(8, &[0u8; 16]), Err(IoError));
    assert_eq!(storage.write(0, &[0u8; 20]), Err(IoError));
    assert_eq!(storage.erase(0, 100), Err(IoError));
    assert_eq!(storage.erase(2048, 4096), Err(IoError));
    assert_eq!(storage.erase(0, 4096 + 16), Err(IoError));
    assert_eq!(storage.write(307200, &[0u8; 16]), Err(IoError));
    assert_eq!(storage, before);

    let mut buf = [0xaau8; 20];
    assert_eq!(storage.read(0, &mut buf), Err(IoError));
    assert_eq!(buf, [0xaau8; 20]);
    let mut buf = [0xaau8; 16];
    assert_eq!(storage.read(3, &mut buf), Err(IoError));
    assert_eq!(buf, [0xaau8; 16]);
    assert_eq!(storage, before);
}

#[test]
fn flash_too_small_for_the_region_is_an_io_error() {
    let chip = FlashImage::erased(0x380000 + 4096);
    let mut storage = AppStorage::on(FlashRegion::app(), chip);
    assert_eq!(storage.write(0, &[1u8; 16]), Ok(16));
    assert_eq!(storage.erase(0, 4096), Ok(4096));
    let before = storage.clone();
    assert_eq!(storage.write(4096, &[1u8; 16]), Err(IoError));
    assert_eq!(storage.erase(4096, 4096), Err(IoError));
    assert_eq!(storage.erase(0, 8192), Err(IoError));
    let mut buf = [5u8; 16];
    assert_eq!(storage.read(4096, &mut buf), Err(IoError));
    assert_eq!(buf, [5u8; 16]);
    assert_eq!(storage, before);
}

#[test]
fn other_geometries_are_served_the_same_way() {
    let region = FlashRegion { offset: 64, size: 256, block_size: 64, read_size: 4, write_size: 8 };
    let mut storage = AppStorage::on(region, FlashImage::from_cells(vec![0x55; 512]));
    assert_eq!(storage.erase(64, 128), Ok(128));
    assert_eq!(storage.write(64, &[0x12; 8]), Ok(8));
    assert_eq!(storage.write(68, &[0x12; 8]), Err(IoError));
    let mut buf = [0u8; 12];
    assert_eq!(storage.read(60, &mut buf), Ok(12));
    assert_eq!(buf, [0x55, 0x55, 0x55, 0x55, 0x12, 0x12, 0x12, 0x12, 0x12, 0x12, 0x12, 0x12]);
    let cells = storage.into_flash().cells().clone();
    assert!(cells[..128].iter().all(|&c| c == 0x55));
    assert_eq!(&cells[128..136], &[0x12; 8]);
    assert!(cells[136..256].iter().all(|&c| c == 0xff));
    assert!(cells[256..].iter().all(|&c| c == 0x55));
}

#[test]
fn flash_array_checks_its_own_bounds() {
    let mut flash = FlashImage::erased(64);
    assert_eq!(flash.write(60, &[0u8; 4]), Ok(()));
    assert_eq!(flash.write(61, &[0u8; 4]), Err(OutOfBounds));
    assert_eq!(flash.erase(0, 64), Ok(()));
    assert_eq!(flash.erase(0, 65), Err(OutOfBounds));
    assert_eq!(flash.erase(10, 9), Err(OutOfBounds));
    assert_eq!(flash.erase(10, 10), Ok(()));
    let mut buf = [0u8; 8];
    assert_eq!(flash.read(56, &mut buf), Ok(()));
    assert_eq!(buf, [0xff; 8]);
    assert_eq!(flash.read(57, &mut buf), Err(OutOfBounds));
    assert_eq!(flash.read(u32::MAX, &mut buf), Err(OutOfBounds));
}

#[test]
fn inconsistent_geometry_serves_nothing() {
    let good = FlashRegion { offset: 0, size: 256, block_size: 64, read_size: 4, write_size: 8 };
    assert!(good.is_consistent());
    let bad = [
        FlashRegion { read_size: 0, ..good },
        FlashRegion { write_size: 0, ..good },
        FlashRegion { block_size: 0, ..good },
        FlashRegion { read_size: 5, ..good },
        FlashRegion { write_size: 24, ..good },
        FlashRegion { size: 200, ..good },
        FlashRegion { offset: u32::MAX - 255, ..good },
    ];
    for region in bad {
        assert!(!region.is_consistent(), "{region:?}");
        assert_eq!(region.read_address(0, 0), Err(IoError));
        assert_eq!(region.write_address(0, 0), Err(IoError));
        assert_eq!(region.erase_range(0, 64), Err(IoError));
        let mut storage = AppStorage::on(region, FlashImage::erased(512));
        let before = storage.clone();
        let mut buf = [0u8; 0];
        assert_eq!(storage.read(0, &mut buf), Err(IoError));
        assert_eq!(storage.write(0, &[]), Err(IoError));
        assert_eq!(storage.erase(0, 64), Err(IoError));
        assert_eq!(storage, before);
    }
    assert!(FlashRegion { offset: u32::MAX - 256, ..good }.is_consistent());
}

#[test]
fn device_answers_become_lengths_or_the_io_error() {
    assert_eq!(outcome::<OutOfBounds>(16, Ok(())), Ok(16));
    assert_eq!(outcome(16, Err(OutOfBounds)), Err(IoError));
    assert_eq!(outcome(0, Err("timeout")), Err(IoError));
}
