use nesru::memory::{page, page_crossed, Memory};

#[test]
fn mem_write_range() {
    let mut mem = Memory::new();
    mem.write_range(0x00FF, 0x0200, 0x04);
    for x in 0x00FF..0x0200 {
        assert_eq!(mem.read(x), 0x04);
    }
}

#[test]
fn page_number_0() {
    assert_eq!(page(0x0000), 0);
    assert_eq!(page(0x00FF), 0);
    assert_eq!(page(0x0100), 1);
}

#[test]
fn page_crossing_detected() {
    assert_eq!(page_crossed(0x0000, 0x00FF), false);
    assert_eq!(page_crossed(0x00FF, 0x01AA), true);
}

#[test]
fn write_range_is_inclusive_of_both_endpoints() {
    let mut mem = Memory::new();
    mem.write_range(0x4000, 0x400F, 0x07);
    assert_eq!(mem.read(0x3FFF), 0x00);
    assert_eq!(mem.read(0x4000), 0x07);
    assert_eq!(mem.read(0x400F), 0x07);
    assert_eq!(mem.read(0x4010), 0x00);
}

#[test]
fn memory_starts_zeroed_and_writes_stick() {
    let mut mem = Memory::new();
    assert_eq!(mem.read(0x0000), 0);
    assert_eq!(mem.read(0xFFFF), 0);
    mem.write(0xFFFF, 0xAB);
    assert_eq!(mem.read(0xFFFF), 0xAB);
    assert_eq!(mem.read(0xFFFE), 0x00);
}
