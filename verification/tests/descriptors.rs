use hypervisor::lpae::{
    align, align_4k, is_output_address, pagetable_concat_table, pagetable_first_index,
    pagetable_second_index, pagetable_third_index, pagetable_zeroeth_index, Alignment, PageTable,
    PageTableConcat, PageTableEntry, ADDRESS_SPACE_PER_TABLE, PAGE_SIZE,
};

#[test]
fn page_descriptor_has_the_stage_one_attributes() {
    let entry = PageTableEntry::from_block(0x4000_0000);
    assert_eq!(entry.0, 0x4000_0723);
    assert!(entry.is_valid());
    // valid, page
    assert_eq!(entry.0 & 0x3, 0x3);
    // attribute index 0
    assert_eq!((entry.0 >> 2) & 0x7, 0);
    // non-secure
    assert_eq!((entry.0 >> 5) & 0x1, 1);
    // read-write at EL2 only
    assert_eq!((entry.0 >> 6) & 0x3, 0);
    // inner shareable
    assert_eq!((entry.0 >> 8) & 0x3, 3);
    // access flag
    assert_eq!((entry.0 >> 10) & 0x1, 1);
    // global
    assert_eq!((entry.0 >> 11) & 0x1, 0);

    assert_eq!(PageTableEntry::from_block(0).0, 0x723);
    assert_eq!(PageTableEntry::from_block(0x0900_0000).0, 0x0900_0723);
}

#[test]
fn page_descriptor_round_trips() {
    let mut paddr = 0u64;
    while paddr < (1 << 40) {
        let entry = PageTableEntry::from_block(paddr);
        assert_eq!(entry.0 & 0x0000_ffff_ffff_f000, paddr);
        assert_eq!((entry.0 >> 12) & 0xf_ffff_ffff, paddr >> 12);
        assert_eq!(entry.0 & 0xc00f_0000_0000_0000, 0);
        assert_eq!(entry.0 & 0xfff, 0x723);
        paddr += 0x3_1415_9000;
    }
    let top = (1u64 << 40) - 0x1000;
    assert_eq!(PageTableEntry::from_block(top).0, 0xff_ffff_f723);
}

#[test]
fn block_descriptors_never_leak_low_address_bits() {
    for address in [0u64, 1, 0x7ff, 0xfff, 0x4000_0abc, 0x4040_0fff, (1 << 40) - 1] {
        assert_eq!(PageTableEntry::from_block(address).0 & 0xfff, 0x723);
        assert_eq!(PageTableEntry::from_block(address).0 >> 12, address >> 12);
        assert_eq!(PageTableEntry::from_block_stage2(address).0 & 0x3fff_ffff, 0x4c1);
        assert_eq!(PageTableEntry::from_block_stage2(address).0 >> 30, address >> 30);
    }
}

#[test]
fn stage_two_block_descriptor_is_aligned_to_a_gigabyte() {
    let entry = PageTableEntry::from_block_stage2(0x4040_0000);
    assert_eq!(entry.0, 0x4000_04c1);
    assert!(entry.is_valid());
    // not a table
    assert_eq!((entry.0 >> 1) & 0x1, 0);
    // S2AP read-write
    assert_eq!((entry.0 >> 6) & 0x3, 3);
    // access flag
    assert_eq!((entry.0 >> 10) & 0x1, 1);

    assert_eq!(PageTableEntry::from_block_stage2(0x3fff_ffff).0, 0x4c1);
    assert_eq!(PageTableEntry::from_block_stage2((1 << 40) - 1).0, 0xff_c000_04c1);
}

#[test]
fn table_descriptor_points_at_the_table() {
    let table = PageTable::new(0x4020_1000);
    let entry = PageTableEntry::from_table(&table);
    assert_eq!(entry.0, 0x8000_0000_4020_1003);
    assert!(entry.is_valid());
    assert_eq!((entry.0 >> 12) & 0xf_ffff_ffff, 0x4020_1000 >> 12);
    // reserved bits [62:61] and [51:48]
    assert_eq!(entry.0 & 0x600f_0000_0000_0000, 0);
    // non-secure table
    assert_eq!(entry.0 >> 63, 1);

    let top = PageTable::new((1 << 40) - 0x1000);
    assert_eq!(PageTableEntry::from_table(&top).0, 0x8000_00ff_ffff_f003);
}

#[test]
fn stage_two_table_descriptor_has_the_stage_two_attributes() {
    let table = PageTable::new(0x4020_6000);
    let entry = PageTableEntry::from_table_stage2(&table);
    assert_eq!(entry.0, 0x4020_66e3);
    assert!(entry.is_valid());
    // table
    assert_eq!((entry.0 >> 1) & 0x1, 1);
    // attribute index 0
    assert_eq!((entry.0 >> 2) & 0x7, 0);
    // non-secure
    assert_eq!((entry.0 >> 5) & 0x1, 1);
    // S2AP read-write
    assert_eq!((entry.0 >> 6) & 0x3, 3);
    // shareability 10
    assert_eq!((entry.0 >> 8) & 0x3, 2);
    // access flag
    assert_eq!((entry.0 >> 10) & 0x1, 1);
    // reserved bits [63:59] and [51:48]
    assert_eq!(entry.0 & 0xf80f_0000_0000_0000, 0);

    // bits from 40 up of the address are cut
    let far = PageTable { base: 0xffff_ff00_0000_1000, entries: [PageTableEntry(0); 512] };
    assert_eq!(PageTableEntry::from_table_stage2(&far).0, 0x16e3);
}

#[test]
fn only_addresses_below_two_to_the_forty_are_output_addresses() {
    assert!(!is_output_address(0x1_0000_0000_0000));
    assert!(!is_output_address(1 << 40));
    assert!(!is_output_address(u64::MAX));
    assert!(is_output_address((1 << 40) - 1));
    assert!(is_output_address(0x4040_0000));
    assert!(is_output_address(0));
}

#[test]
fn invalid_descriptor_is_not_valid() {
    assert!(!PageTableEntry(0).is_valid());
    assert!(!PageTableEntry(0x4000_0722).is_valid());
    assert!(PageTableEntry(1).is_valid());
}

#[test]
fn indices_are_nine_bit_digits() {
    let vaddr = 0x0000_8123_4567_8abc_u64;
    assert_eq!(pagetable_zeroeth_index(vaddr), ((vaddr >> 39) & 0x1ff) as usize);
    assert_eq!(pagetable_first_index(vaddr), ((vaddr >> 30) & 0x1ff) as usize);
    assert_eq!(pagetable_second_index(vaddr), ((vaddr >> 21) & 0x1ff) as usize);
    assert_eq!(pagetable_third_index(vaddr), ((vaddr >> 12) & 0x1ff) as usize);
    assert_eq!(pagetable_zeroeth_index(vaddr), 0x102);
    assert_eq!(pagetable_first_index(vaddr), 0x08d);
    assert_eq!(pagetable_second_index(vaddr), 0x02b);
    assert_eq!(pagetable_third_index(vaddr), 0x078);

    assert_eq!(pagetable_zeroeth_index(0x4008_0000), 0);
    assert_eq!(pagetable_first_index(0x4008_0000), 1);
    assert_eq!(pagetable_second_index(0x4008_0000), 0);
    assert_eq!(pagetable_third_index(0x4008_0000), 0x80);

    assert_eq!(pagetable_zeroeth_index(u64::MAX), 511);
    assert_eq!(pagetable_first_index(u64::MAX), 511);
    assert_eq!(pagetable_second_index(u64::MAX), 511);
    assert_eq!(pagetable_third_index(u64::MAX), 511);
    assert_eq!(pagetable_third_index(0xfff), 0);
}

#[test]
fn indices_hold_for_many_addresses() {
    let mut vaddr = 0x9e37_79b9_7f4a_7c15_u64;
    for _ in 0..10_000 {
        assert_eq!(pagetable_zeroeth_index(vaddr) as u64, (vaddr >> 39) & 0x1ff);
        assert_eq!(pagetable_first_index(vaddr) as u64, (vaddr >> 30) & 0x1ff);
        assert_eq!(pagetable_second_index(vaddr) as u64, (vaddr >> 21) & 0x1ff);
        assert_eq!(pagetable_third_index(vaddr) as u64, (vaddr >> 12) & 0x1ff);
        assert_eq!(pagetable_concat_table(vaddr) as u64, (vaddr >> 39) & 1);
        vaddr = vaddr.wrapping_mul(0x5851_f42d_4c95_7f2d).wrapping_add(0x1405_7b7e_f767_814f);
    }
}

#[test]
fn concat_table_is_bit_thirty_nine() {
    assert_eq!(pagetable_concat_table(0), 0);
    assert_eq!(pagetable_concat_table(0x4040_0000), 0);
    assert_eq!(pagetable_concat_table(0x7f_ffff_ffff), 0);
    assert_eq!(pagetable_concat_table(0x80_0000_0000), 1);
    assert_eq!(pagetable_concat_table(0x80_4040_0000), 1);
    assert_eq!(pagetable_concat_table(0x100_0000_0000), 0);
    assert_eq!(pagetable_concat_table(u64::MAX), 1);
}

#[test]
fn align_rounds_down_to_a_page() {
    assert_eq!(align(0x4010_0fff, Alignment::Kb4), 0x4010_0000);
    assert_eq!(align(0x4010_1000, Alignment::Kb4), 0x4010_1000);
    assert_eq!(align(0xfff, Alignment::Kb4), 0);
    assert_eq!(align(u64::MAX, Alignment::Kb4), 0xffff_ffff_ffff_f000);
    assert_eq!(Alignment::Kb4.mask(), 0xffff_ffff_ffff_f000);
    assert_eq!(align_4k(0x4010_0fff), 0x4010_0000);
    assert_eq!(align_4k(0x1001), 0x1000);
    assert_eq!(align_4k(0), 0);
}

#[test]
fn tables_start_out_empty() {
    let table = PageTable::new(0x4020_0000);
    assert_eq!(table.base, 0x4020_0000);
    assert_eq!(table.entries.len(), 512);
    assert!(table.entries.iter().all(|entry| entry.0 == 0));

    let root = PageTableConcat::new(0x4020_4000);
    assert_eq!(root.base, 0x4020_4000);
    assert_eq!(root.entries.len(), 1024);
    assert!(root.entries.iter().all(|entry| entry.0 == 0));

    assert_eq!(PAGE_SIZE, 4096);
    assert_eq!(ADDRESS_SPACE_PER_TABLE, 2 * 1024 * 1024);
}
