use w25q::io::FlashError;
use w25q::mem::{erase_sectors, min, write_chunks};
use w25q::{PAGE_SIZE, SECTOR_SIZE, TOTAL_SIZE};

#[test]
fn write_split_at_page_boundary() {
    // 300 bytes starting at offset 200 with a 256-byte page: two program
    // commands, 56 bytes at 200 and 244 bytes at 256.
    let chunks = write_chunks(200, 300).unwrap();
    assert_eq!(chunks, vec![(200, 56), (256, 244)]);
}

#[test]
fn write_within_one_page_is_one_chunk() {
    assert_eq!(write_chunks(0, 256).unwrap(), vec![(0, 256)]);
    assert_eq!(write_chunks(256, 1).unwrap(), vec![(256, 1)]);
    assert_eq!(write_chunks(300, 100).unwrap(), vec![(300, 100)]);
}

#[test]
fn write_of_nothing_issues_nothing() {
    assert_eq!(write_chunks(123, 0).unwrap(), vec![]);
}

#[test]
fn write_spanning_many_pages() {
    let chunks = write_chunks(255, 513).unwrap();
    assert_eq!(chunks, vec![(255, 1), (256, 256), (512, 256)]);
    // Every chunk stays inside its page and they cover the range seamlessly.
    let mut expected_start = 255usize;
    let mut total = 0usize;
    for (addr, len) in &chunks {
        assert_eq!(*addr as usize, expected_start);
        assert!(*addr as usize % PAGE_SIZE + len <= PAGE_SIZE);
        expected_start += len;
        total += len;
    }
    assert_eq!(total, 513);
}

#[test]
fn write_past_the_end_is_rejected() {
    assert_eq!(write_chunks(TOTAL_SIZE - 1, 2).unwrap_err(), FlashError::AddressOutOfRange);
    assert_eq!(write_chunks(TOTAL_SIZE + 1, 0).unwrap_err(), FlashError::AddressOutOfRange);
    assert!(write_chunks(TOTAL_SIZE - 2, 2).is_ok());
}

#[test]
fn erase_expands_to_whole_sectors() {
    // One byte at offset 4097 lies in sector 1 alone: that sector is erased
    // and 4096 bytes are reported.
    let (addrs, bytes) = erase_sectors(4097, 1).unwrap();
    assert_eq!(addrs, vec![4096]);
    assert_eq!(bytes, 4096);
}

#[test]
fn erase_crossing_a_sector_boundary_takes_both_sectors() {
    let (addrs, bytes) = erase_sectors(4095, 2).unwrap();
    assert_eq!(addrs, vec![0, 4096]);
    assert_eq!(bytes, 8192);
}

#[test]
fn erase_aligned_range() {
    let (addrs, bytes) = erase_sectors(0, SECTOR_SIZE).unwrap();
    assert_eq!(addrs, vec![0]);
    assert_eq!(bytes, SECTOR_SIZE);

    let (addrs, bytes) = erase_sectors(0, 3 * SECTOR_SIZE).unwrap();
    assert_eq!(addrs, vec![0, 4096, 8192]);
    assert_eq!(bytes, 3 * SECTOR_SIZE);

    let (addrs, bytes) = erase_sectors(TOTAL_SIZE - SECTOR_SIZE, SECTOR_SIZE).unwrap();
    assert_eq!(addrs, vec![(TOTAL_SIZE - SECTOR_SIZE) as u32]);
    assert_eq!(bytes, SECTOR_SIZE);
}

#[test]
fn erase_of_nothing_erases_nothing() {
    // An empty range intersects no sector, aligned or not.
    assert_eq!(erase_sectors(0, 0).unwrap(), (vec![], 0));
    assert_eq!(erase_sectors(4097, 0).unwrap(), (vec![], 0));
    assert_eq!(erase_sectors(TOTAL_SIZE, 0).unwrap(), (vec![], 0));
}

#[test]
fn erase_past_the_end_is_rejected() {
    assert_eq!(
        erase_sectors(TOTAL_SIZE - 1, 2).unwrap_err(),
        FlashError::AddressOutOfRange
    );
    assert_eq!(erase_sectors(TOTAL_SIZE + 1, 0).unwrap_err(), FlashError::AddressOutOfRange);
}

#[test]
fn min_picks_the_smaller() {
    assert_eq!(min(3, 5), 3);
    assert_eq!(min(5, 3), 3);
    assert_eq!(min(4, 4), 4);
    assert_eq!(min(0, 1), 0);
}

#[test]
fn geometry_is_fixed_at_construction() {
    let cfg = w25q::types::FlashConfig { total_size: TOTAL_SIZE, page_size: PAGE_SIZE };
    assert_eq!(cfg.total_size, 16 * 1024 * 1024);
    assert_eq!(cfg.page_size, 256);
    assert_eq!(TOTAL_SIZE, w25q::SECTOR_COUNT * SECTOR_SIZE);
    assert_eq!(w25q::PAGE_COUNT * PAGE_SIZE, TOTAL_SIZE);
    assert_eq!(w25q::BLOCK_SIZE_32, 32768);
    assert_eq!(w25q::BLOCK_SIZE_64, 65536);
}
