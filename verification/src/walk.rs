//! The table walk of stage 1: which physical address the walker finds for
//! a virtual address in a tree, and what mapping a page or a range of
//! pages does to it.
use vstd::prelude::*;
use crate::lpae::{
    ALIGN_4K_MASK,
    CORTEX_A53_MAX_OA,
    PAGE_MASK,
    PTE_ADDRESS_MASK,
    PTE_TABLE,
    PTE_VALID,
    TreeView,
    block_descriptor,
    lemma_index_digits,
    lemma_mapped_range_tables,
    pagetable_first_index,
    pagetable_second_index,
    pagetable_third_index,
    pagetable_zeroeth_index,
    table_descriptor,
};

verus! {

impl TreeView {
    /// The physical address that the table walk finds for `vaddr`: the walk
    /// reads the descriptor that `vaddr` selects at each level, goes on while
    /// the descriptor is a valid table descriptor that points at the tree's
    /// next table, and at level 3 takes the page of a valid page descriptor
    /// and the offset of `vaddr` within its page. There is no translation
    /// where the walk stops early.
    pub open spec fn translate(self, vaddr: u64) -> Option<u64> {
        let e0 = self.zeroeth.entries[pagetable_zeroeth_index(vaddr) as int];
        let e1 = self.first.entries[pagetable_first_index(vaddr) as int];
        let e2 = self.second.entries[pagetable_second_index(vaddr) as int];
        let e3 = self.third.entries[pagetable_third_index(vaddr) as int];
        if e0.is_valid() && e0.is_table() && e0.output_address() == self.first.base
            && e1.is_valid() && e1.is_table() && e1.output_address() == self.second.base
            && e2.is_valid() && e2.is_table() && e2.output_address() == self.third.base
            && e3.is_valid() && e3.is_table() {
            Some(e3.output_address() | (vaddr & PAGE_MASK))
        } else {
            None
        }
    }
}

/// What the walk reads back from the descriptors of the tree's own
/// tables and pages: a table descriptor is valid, a table, and points at
/// the 4 KiB aligned table it was made from; a page descriptor is valid, a
/// page, and points at the page of the address it was made from.
proof fn lemma_walk_descriptors(base: u64, paddr: u64)
    by (bit_vector)
    requires
        base % 4096 == 0,
        base <= CORTEX_A53_MAX_OA,
        paddr <= CORTEX_A53_MAX_OA,
    ensures
        table_descriptor(base) & PTE_VALID == 1,
        table_descriptor(base) & PTE_TABLE == PTE_TABLE,
        table_descriptor(base) & PTE_ADDRESS_MASK == base,
        block_descriptor(paddr) & PTE_VALID == 1,
        block_descriptor(paddr) & PTE_TABLE == PTE_TABLE,
        block_descriptor(paddr) & PTE_ADDRESS_MASK == paddr & ALIGN_4K_MASK,
{
}

/// After `vaddr` has been mapped to `paddr`, the table walk translates
/// every address in the page of `vaddr` to the same offset in the page of
/// `paddr`.
pub proof fn lemma_mapped_translates(tree: TreeView, vaddr: u64, paddr: u64, within: u64)
    requires
        tree.wf(),
        paddr <= CORTEX_A53_MAX_OA,
        within >> 12 == vaddr >> 12,
    ensures
        tree.mapped(vaddr, paddr).translate(within) == Some(
            (paddr & ALIGN_4K_MASK) | (within & PAGE_MASK),
        ),
{
    lemma_index_digits(vaddr);
    lemma_index_digits(within);
    assert(within >> 39 == vaddr >> 39 && within >> 30 == vaddr >> 30 && within >> 21 == vaddr
        >> 21) by (bit_vector)
        requires
            within >> 12 == vaddr >> 12,
    ;
    lemma_walk_descriptors(tree.first.base, paddr);
    lemma_walk_descriptors(tree.second.base, paddr);
    lemma_walk_descriptors(tree.third.base, paddr);
}

/// Mapping another page leaves a translation as it is: if the walk for
/// `other` succeeds and ends at another level-3 descriptor than the one
/// that `vaddr` selects, it succeeds with the same result after `vaddr`
/// has been mapped.
pub proof fn lemma_mapped_keeps_translation(tree: TreeView, vaddr: u64, paddr: u64, other: u64)
    requires
        tree.wf(),
        pagetable_third_index(other) != pagetable_third_index(vaddr),
        tree.translate(other) is Some,
    ensures
        tree.mapped(vaddr, paddr).translate(other) == tree.translate(other),
{
    lemma_index_digits(vaddr);
    lemma_index_digits(other);
    lemma_walk_descriptors(tree.first.base, 0);
    lemma_walk_descriptors(tree.second.base, 0);
    lemma_walk_descriptors(tree.third.base, 0);
}

/// Two pages less than 512 pages apart select different level-3
/// descriptors.
pub proof fn lemma_pages_apart(low: u64, high: u64)
    requires
        low % 4096 == 0,
        high % 4096 == 0,
        low < high,
        high - low < 512 * 4096,
    ensures
        pagetable_third_index(low) != pagetable_third_index(high),
{
    assert((low >> 12) & 0x1ff == (low / 0x1000) % 512 && (high >> 12) & 0x1ff == (high / 0x1000)
        % 512) by (bit_vector);
    let a = low as int / 4096;
    let b = high as int / 4096;
    assert(0 < b - a < 512);
    assert(a % 512 != b % 512);
}

/// A page and an address in it: for two multiples of 4096, the page of
/// the one with the offset of the other is the one.
proof fn lemma_page_of_aligned(vaddr: u64, paddr: u64)
    by (bit_vector)
    requires
        vaddr % 4096 == 0,
        paddr % 4096 == 0,
    ensures
        (paddr & ALIGN_4K_MASK) | (vaddr & PAGE_MASK) == paddr,
{
}

/// After a range of at most 512 pages has been mapped, the table walk
/// translates each page of the range to its counterpart: no page of the
/// range has taken the level-3 descriptor of another.
pub proof fn lemma_mapped_range_translates(
    tree: TreeView,
    vaddr: u64,
    paddr: u64,
    pages: nat,
    page: nat,
)
    requires
        tree.wf(),
        vaddr % 4096 == 0,
        paddr % 4096 == 0,
        page < pages <= 512,
        vaddr + 4096 * (pages - 1) <= u64::MAX,
        paddr + 4096 * (pages - 1) <= CORTEX_A53_MAX_OA,
    ensures
        tree.mapped_range(vaddr, paddr, pages).translate((vaddr + 4096 * page) as u64) == Some(
            (paddr + 4096 * page) as u64,
        ),
    decreases pages,
{
    let last = (pages - 1) as nat;
    let before = tree.mapped_range(vaddr, paddr, last);
    let vlast = (vaddr + 4096 * last) as u64;
    let plast = (paddr + 4096 * last) as u64;
    assert(tree.mapped_range(vaddr, paddr, pages) == before.mapped(vlast, plast));
    lemma_mapped_range_tables(tree, vaddr, paddr, last);
    if page == last {
        lemma_mapped_translates(before, vlast, plast, vlast);
        lemma_page_of_aligned(vlast, plast);
    } else {
        let vpage = (vaddr + 4096 * page) as u64;
        lemma_mapped_range_translates(tree, vaddr, paddr, last, page);
        lemma_pages_apart(vpage, vlast);
        lemma_mapped_keeps_translation(before, vlast, plast, vpage);
    }
}

} // verus!
