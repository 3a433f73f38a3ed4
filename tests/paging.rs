use usertask::memory::MemFault;
use usertask::page_table::{NotMapped, PhysMem};
use usertask::pte::PTE;
use usertask::tlb::Tlb;

const V: u64 = 1;
const LEAF: u64 = 1 | 2 | 4 | 8 | 16;

fn ptr_entry(frame: u64) -> u64 {
    (frame << 10) | V
}

fn leaf_entry(frame: u64) -> u64 {
    (frame << 10) | LEAF
}

/// Eight frames; frame 1 is the root, frame 2 the middle table, frame 3
/// the leaf table for the first 2 MiB. The page at `0x1000` maps to frame 4
/// and the page at `0x2000` to frame 5.
fn two_pages() -> PhysMem {
    two_pages_in(8)
}

fn two_pages_in(frames: usize) -> PhysMem {
    let mut m = PhysMem::new(frames);
    m.set_word(1, 0, ptr_entry(2));
    m.set_word(2, 0, ptr_entry(3));
    m.set_word(3, 1, leaf_entry(4));
    m.set_word(3, 2, leaf_entry(5));
    m
}

#[test]
fn pte_get_paddr_shifts_page_number() {
    let e = PTE((0x12345 << 10) | 0x3ff);
    assert_eq!(e.get_paddr(), 0x12345 << 12);
}

#[test]
fn pte_set_paddr_keeps_flags() {
    let mut e = PTE((7 << 10) | LEAF);
    e.set_paddr(0x8765_4321);
    assert_eq!(e.0, (0x87654 << 10) | LEAF);
    assert_eq!(e.get_paddr(), 0x8765_4000);
    assert!(e.is_valid());
}

#[test]
fn resolve_walks_three_levels() {
    let m = two_pages();
    assert_eq!(m.resolve(0x1000, 0x1234), Ok(0x4234));
    assert_eq!(m.resolve(0x1000, 0x2ff8), Ok(0x5ff8));
}

#[test]
fn resolve_reports_unmapped() {
    let mut m = two_pages();
    assert_eq!(m.resolve(0x1000, 0x3000), Err(NotMapped::NotMapped));
    assert_eq!(m.resolve(0x1000, 0x4000_0000), Err(NotMapped::NotMapped));
    assert_eq!(m.resolve(0x9000, 0x1000), Err(NotMapped::NotMapped));
    m.set_word(2, 0, 2 << 10);
    assert_eq!(m.resolve(0x1000, 0x1000), Err(NotMapped::NotMapped));
}

#[test]
fn remap_then_resolve_gives_new_address() {
    let mut m = two_pages();
    assert_eq!(m.remap(0x1000, 0x1000, 0x5000), Ok(()));
    assert_eq!(m.resolve(0x1000, 0x1010), Ok(0x5010));
    assert_eq!(m.resolve(0x1000, 0x2010), Ok(0x5010));
    assert_eq!(m.word(3, 1), leaf_entry(5));
}

#[test]
fn remap_of_missing_leaf_fails() {
    let mut m = two_pages();
    assert_eq!(m.remap(0x1000, 0x4000_0000, 0x5000), Err(NotMapped::NotMapped));
    assert_eq!(m.resolve(0x1000, 0x1000), Ok(0x4000));
}

#[test]
fn remapped_pages_share_data() {
    let mut m = two_pages();
    m.write_u64(0x1000, 0x2008, 0xabcd).unwrap();
    m.remap(0x1000, 0x1000, 0x5000).unwrap();
    assert_eq!(m.read_u64(0x1000, 0x1008), Ok(0xabcd));
}

#[test]
fn resolve_repeated_is_stable() {
    let mut m = two_pages();
    let first = m.resolve(0x1000, 0x1abc);
    assert_eq!(m.resolve(0x1000, 0x1abc), first);
    m.write_u64(0x1000, 0x1ab8, 42).unwrap();
    m.write_u64(0x1000, 0x2000, 7).unwrap();
    assert_eq!(m.resolve(0x1000, 0x1abc), first);
}

#[test]
fn isolated_spaces_do_not_see_each_other() {
    // A second space, rooted at frame 6 with its own tables in frames 8 and
    // 9, maps the same page 0x1000 to frame 7.
    let mut m = two_pages_in(12);
    m.set_word(6, 0, ptr_entry(8));
    m.set_word(8, 0, ptr_entry(9));
    m.set_word(9, 1, leaf_entry(7));
    m.write_u64(0x1000, 0x1000, 0x1111).unwrap();
    m.write_u64(0x6000, 0x1000, 0x2222).unwrap();
    assert_eq!(m.read_u64(0x1000, 0x1000), Ok(0x1111));
    assert_eq!(m.read_u64(0x6000, 0x1000), Ok(0x2222));
    assert_eq!(m.read_u8(0x6000, 0x1000), Ok(0x22));
    assert_eq!(m.resolve(0x6000, 0x1000), Ok(0x7000));
}

#[test]
fn word_access_faults() {
    let mut m = two_pages();
    assert_eq!(m.read_u64(0x1000, 0x1001), Err(MemFault::Misaligned));
    assert_eq!(m.write_u64(0x1000, 0x1004, 1), Err(MemFault::Misaligned));
    assert_eq!(m.write_u64(0x1000, 0x3000, 1), Err(MemFault::Unmapped));
    assert_eq!(m.read_u8(0x1000, 0x3000), Err(MemFault::Unmapped));
}

#[test]
fn user_bytes_are_checked_whole() {
    let mut m = two_pages();
    m.write_u64(0x1000, 0x2ff8, u64::from_le_bytes(*b"abcdefgh")).unwrap();
    assert_eq!(m.read_user_bytes(0x1000, 0x2ffc, 4), Ok(b"efgh".to_vec()));
    assert_eq!(m.read_user_bytes(0x1000, 0x2ffc, 5), Err(MemFault::Unmapped));
    assert_eq!(m.read_user_bytes(0x1000, u64::MAX, 2), Err(MemFault::Overflow));
    assert_eq!(m.read_user_bytes(0x1000, 0x2000, 0), Ok(Vec::new()));
}

#[test]
fn load_page_packs_little_endian() {
    let mut m = PhysMem::new(2);
    let mut bytes = vec![0u8; 4096];
    bytes[0] = 1;
    bytes[1] = 2;
    bytes[4095] = 0xff;
    m.load_page(1, &bytes);
    assert_eq!(m.word(1, 0), 0x0201);
    assert_eq!(m.word(1, 511), 0xff << 56);
    assert_eq!(m.word(0, 0), 0);
}

#[test]
fn map_makes_source_read_destination_data() {
    let mut m = two_pages();
    let mut tlb = Tlb::new();
    m.write_u64(0x1000, 0x1000, u64::from_le_bytes(*b"Hello A.")).unwrap();
    m.write_u64(0x1000, 0x2000, u64::from_le_bytes(*b"Hello B.")).unwrap();
    tlb.fill(0x1000, 0x4000);
    tlb.fill(0x2000, 0x5000);
    assert_eq!(usertask::tlb::map(&mut m, &mut tlb, 0x1000, 0x1000, 0x2000), Ok(()));
    assert_eq!(tlb.lookup(0x1000), None);
    assert_eq!(tlb.lookup(0x2008), Some(0x5008));
    assert_eq!(tlb.translate(&m, 0x1000, 0x1008), Ok(0x5008));
    assert_eq!(m.read_u64(0x1000, 0x1000), Ok(u64::from_le_bytes(*b"Hello B.")));
    assert_eq!(m.resolve(0x1000, 0x2000), Ok(0x5000));
}

#[test]
fn map_fails_without_destination_or_leaf() {
    let mut m = two_pages();
    let mut tlb = Tlb::new();
    tlb.fill(0x1000, 0x4000);
    assert_eq!(usertask::tlb::map(&mut m, &mut tlb, 0x1000, 0x1000, 0x3000), Err(NotMapped::NotMapped));
    assert_eq!(usertask::tlb::map(&mut m, &mut tlb, 0x1000, 0x4000_0000, 0x2000), Err(NotMapped::NotMapped));
    assert_eq!(tlb.lookup(0x1000), Some(0x4000));
    assert_eq!(m.resolve(0x1000, 0x1000), Ok(0x4000));
}

#[test]
fn flush_page_keeps_other_pages() {
    let mut tlb = Tlb::new();
    tlb.fill(0x1000, 0x9000);
    tlb.fill(0x2000, 0xa000);
    tlb.fill(0x43000, 0xb000);
    tlb.flush_page(0x1fff);
    assert_eq!(tlb.lookup(0x1000), None);
    assert_eq!(tlb.lookup(0x2004), Some(0xa004));
    assert_eq!(tlb.lookup(0x43000), Some(0xb000));
    tlb.flush_page(0x83000);
    assert_eq!(tlb.lookup(0x43000), Some(0xb000));
}

#[test]
fn stale_cache_entry_wins_until_flushed() {
    let mut m = two_pages();
    let mut tlb = Tlb::new();
    tlb.fill(0x1000, 0x4000);
    m.remap(0x1000, 0x1000, 0x5000).unwrap();
    assert_eq!(tlb.translate(&m, 0x1000, 0x1000), Ok(0x4000));
    tlb.flush_page(0x1000);
    assert_eq!(tlb.translate(&m, 0x1000, 0x1000), Ok(0x5000));
}

#[test]
fn kernel_only_page_is_not_user_readable() {
    let mut m = two_pages();
    m.set_word(3, 3, (6 << 10) | V | 2 | 4);
    assert_eq!(m.read_u8(0x1000, 0x3000), Ok(0));
    assert_eq!(m.read_user_u8(0x1000, 0x3000), Err(MemFault::Unmapped));
    assert_eq!(m.read_user_bytes(0x1000, 0x2ff0, 0x20), Err(MemFault::Unmapped));
    assert_eq!(m.read_user_u8(0x1000, 0x2000), Ok(0));
}

#[test]
fn non_zero_entries_in_order() {
    let m = two_pages();
    assert_eq!(m.non_zero_entries(3), vec![(1, leaf_entry(4)), (2, leaf_entry(5))]);
    assert_eq!(m.non_zero_entries(1), vec![(0, ptr_entry(2))]);
    assert!(m.non_zero_entries(7).is_empty());
}
