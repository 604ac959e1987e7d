use w25q::io::{FlashCore, FlashError, SeekFrom};
use w25q::{PAGE_SIZE, TOTAL_SIZE};

/// A synthetic flash image standing in for the chip in these tests.
fn image_byte(addr: usize) -> u8 {
    (addr % 251) as u8
}

fn image_page(base: u32) -> Vec<u8> {
    (0..PAGE_SIZE).map(|i| image_byte(base as usize + i)).collect()
}

#[test]
fn new_stream_starts_at_zero_with_empty_window() {
    let core = FlashCore::new();
    assert_eq!(core.position(), 0);
    assert_eq!(core.window_len(), 0);
    assert!(core.buf_window().is_empty());
    assert_eq!(core.capacity(), TOTAL_SIZE as u64);
}

#[test]
fn seek_boundaries() {
    let mut core = FlashCore::new();
    // One past the end fails without moving the cursor.
    assert_eq!(core.seek(SeekFrom::End(1)).unwrap_err(), FlashError::AddressOutOfRange);
    assert_eq!(core.position(), 0);
    // The end itself is a valid position and is returned.
    assert_eq!(core.seek(SeekFrom::End(0)).unwrap(), TOTAL_SIZE as u64);
    assert_eq!(core.position(), TOTAL_SIZE);
    // One before the start fails, from any cursor.
    assert_eq!(core.seek(SeekFrom::Start(10)).unwrap(), 10);
    assert_eq!(
        core.seek(SeekFrom::Current(-11)).unwrap_err(),
        FlashError::AddressOutOfRange
    );
    assert_eq!(core.position(), 10);
}

#[test]
fn seek_from_all_origins() {
    let mut core = FlashCore::new();
    assert_eq!(core.seek(SeekFrom::Start(4096)).unwrap(), 4096);
    assert_eq!(core.seek(SeekFrom::Current(-96)).unwrap(), 4000);
    assert_eq!(core.seek(SeekFrom::Current(96)).unwrap(), 4096);
    assert_eq!(core.seek(SeekFrom::End(-16)).unwrap(), (TOTAL_SIZE - 16) as u64);
    assert_eq!(
        core.seek(SeekFrom::Start(TOTAL_SIZE as u64 + 1)).unwrap_err(),
        FlashError::AddressOutOfRange
    );
    assert_eq!(core.position(), TOTAL_SIZE - 16);
    assert_eq!(
        core.seek(SeekFrom::Current(17)).unwrap_err(),
        FlashError::AddressOutOfRange
    );
    assert_eq!(core.seek(SeekFrom::Current(16)).unwrap(), TOTAL_SIZE as u64);
}

#[test]
fn read_plan_clamps_to_capacity() {
    let mut core = FlashCore::new();
    core.seek(SeekFrom::Start(100)).unwrap();
    assert_eq!(core.read_plan(50).unwrap(), (100, 50));

    core.seek(SeekFrom::End(-5)).unwrap();
    assert_eq!(core.read_plan(100).unwrap(), ((TOTAL_SIZE - 5) as u32, 5));

    core.seek(SeekFrom::End(0)).unwrap();
    assert_eq!(core.read_plan(1).unwrap_err(), FlashError::AddressOutOfRange);
}

#[test]
fn advance_moves_the_cursor() {
    let mut core = FlashCore::new();
    core.seek(SeekFrom::Start(100)).unwrap();
    let (addr, n) = core.read_plan(20).unwrap();
    assert_eq!((addr, n), (100, 20));
    core.advance(n);
    assert_eq!(core.position(), 120);
}

#[test]
fn buffered_read_across_a_page_boundary_refetches_twice() {
    // Cursor at PAGE_SIZE - 4; a 10-byte buffered read crosses into the next
    // page: exactly two page fetches, and the bytes match the image.
    let mut core = FlashCore::new();
    core.seek(SeekFrom::Start((PAGE_SIZE - 4) as u64)).unwrap();

    let mut collected: Vec<u8> = Vec::new();
    let mut fetches = 0usize;
    while collected.len() < 10 {
        if let Some(addr) = core.fill_plan().unwrap() {
            core.accept_page(image_page(addr));
            fetches += 1;
        }
        let window = core.buf_window();
        assert!(!window.is_empty());
        let take = window.len().min(10 - collected.len());
        collected.extend_from_slice(&window[..take]);
        core.consume(take);
    }

    assert_eq!(fetches, 2);
    // The same range read directly, without the cache.
    let direct: Vec<u8> =
        (PAGE_SIZE - 4..PAGE_SIZE + 6).map(image_byte).collect();
    assert_eq!(collected, direct);
    assert_eq!(core.position(), PAGE_SIZE + 6);
}

#[test]
fn fill_plan_fetches_the_page_containing_the_cursor() {
    let mut core = FlashCore::new();
    core.seek(SeekFrom::Start(1000)).unwrap();
    // 1000 lies in the page starting at 768.
    assert_eq!(core.fill_plan().unwrap(), Some(768));
    core.accept_page(image_page(768));
    // The window starts at the cursor's in-page offset.
    assert_eq!(core.window_len(), PAGE_SIZE - (1000 - 768));
    assert_eq!(core.buf_window()[0], image_byte(1000));
    // While the window holds bytes, nothing is fetched.
    assert_eq!(core.fill_plan().unwrap(), None);
}

#[test]
fn fill_plan_at_the_end_of_the_address_space_fails() {
    let mut core = FlashCore::new();
    core.seek(SeekFrom::End(0)).unwrap();
    assert_eq!(core.fill_plan().unwrap_err(), FlashError::AddressOutOfRange);
}

#[test]
fn consume_clamps_the_window_and_moves_the_cursor() {
    let mut core = FlashCore::new();
    core.seek(SeekFrom::Start(0)).unwrap();
    core.accept_page(image_page(0));
    assert_eq!(core.window_len(), PAGE_SIZE);
    core.consume(100);
    assert_eq!(core.window_len(), PAGE_SIZE - 100);
    assert_eq!(core.position(), 100);
    assert_eq!(core.buf_window()[0], image_byte(100));
    // Consuming past the window end empties the window; the cursor still
    // moves by the full amount.
    core.consume(200);
    assert_eq!(core.window_len(), 0);
    assert_eq!(core.position(), 300);
}
