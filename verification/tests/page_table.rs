use std::collections::HashMap;
use userland::page_table::{
    directory_entry_address, level1_entry_address, level2_entry_address, query, table_indices, traverse,
    ArchPageTableEntryAttr, PageTableEntryAttr, PageTableWalk, TraverseState, WalkStep,
};

const UXN: u64 = 1 << 54;
const COW: u64 = 1 << 55;
const LIB: u64 = 1 << 56;

fn attr(executable: bool, writable: bool, copy_on_write: bool, shared: bool) -> PageTableEntryAttr {
    PageTableEntryAttr { executable, writable, copy_on_write, shared }
}

#[test]
fn constructors_set_one_flag() {
    assert_eq!(PageTableEntryAttr::executable(), attr(true, false, false, false));
    assert_eq!(PageTableEntryAttr::writable(), attr(false, true, false, false));
    assert_eq!(PageTableEntryAttr::copy_on_write(), attr(false, false, true, false));
    assert_eq!(PageTableEntryAttr::shared(), attr(false, false, false, true));
    assert_eq!(PageTableEntryAttr::default(), attr(false, false, false, false));
}

#[test]
fn add_is_union_and_sub_is_difference() {
    let a = attr(true, true, false, false);
    let b = attr(false, true, true, false);
    assert_eq!(a + b, attr(true, true, true, false));
    assert_eq!(a - b, attr(true, false, false, false));
    assert_eq!(a - a, PageTableEntryAttr::default());
    assert_eq!(a + PageTableEntryAttr::default(), a);
    let w = PageTableEntryAttr::writable();
    let c = PageTableEntryAttr::copy_on_write();
    assert_eq!(a - w + c, attr(true, false, true, false));
    assert_eq!(a - w + c + w - c, a);
}

#[test]
fn encoding_of_each_flag() {
    let bits = |a: PageTableEntryAttr| ArchPageTableEntryAttr::from(a).to_usize() as u64;
    assert_eq!(bits(PageTableEntryAttr::default()), 0xc0 | UXN);
    assert_eq!(bits(PageTableEntryAttr::writable()), 0x40 | UXN);
    assert_eq!(bits(PageTableEntryAttr::executable()), 0xc0);
    assert_eq!(bits(PageTableEntryAttr::copy_on_write()), 0xc0 | UXN | COW);
    assert_eq!(bits(PageTableEntryAttr::shared()), 0xc0 | UXN | LIB);
    assert_eq!(bits(attr(true, true, true, true)), 0x40 | COW | LIB);
    assert_eq!(ArchPageTableEntryAttr::from(PageTableEntryAttr::writable()).to_usize(), (0x40 | UXN) as usize);
}

#[test]
fn decoding_reads_each_field() {
    let d = |b: u64| PageTableEntryAttr::from(ArchPageTableEntryAttr::new(b));
    assert_eq!(d(0), attr(true, false, false, false));
    assert_eq!(d(UXN | 0xc0), attr(false, false, false, false));
    assert_eq!(d(0x40 | 0x3), attr(true, true, false, false));
    // AP = 0b00 is read/write at EL1 only: not writable for user space.
    assert_eq!(d(0x00 | UXN), attr(false, false, false, false));
    assert_eq!(d(0x80 | UXN | COW), attr(false, false, true, false));
    assert_eq!(d(LIB | 0x40), attr(true, true, false, true));
}

#[test]
fn decode_after_encode_gives_back_every_attribute() {
    for i in 0..16u32 {
        let a = attr(i & 1 != 0, i & 2 != 0, i & 4 != 0, i & 8 != 0);
        let back = PageTableEntryAttr::from(ArchPageTableEntryAttr::from(a));
        assert_eq!(back, a);
    }
}

#[test]
fn entry_addresses_in_the_recursive_window() {
    assert_eq!(directory_entry_address(0), 0x7f_ffff_f000);
    assert_eq!(directory_entry_address(5), 0x7f_ffff_f028);
    assert_eq!(directory_entry_address(511), 0x7f_ffff_fff8);
    assert_eq!(level1_entry_address(1, 2), 0x7f_ffe0_1010);
    assert_eq!(level2_entry_address(1, 2, 3), 0x7f_c020_2018);
    assert_eq!(level2_entry_address(0, 0, 0), 0x7f_c000_0000);
}

#[test]
fn table_indices_of_an_address() {
    let va: u64 = (3 << 30) | (5 << 21) | (7 << 12) | 0x123;
    assert_eq!(table_indices(va), (3, 5, 7));
    assert_eq!(table_indices(0), (0, 0, 0));
    assert_eq!(table_indices(u64::MAX), (511, 511, 511));
}

/// A page table held in a map from address to word; absent words read 0.
struct Memory(HashMap<u64, u64>);

impl Memory {
    fn read(&self, addr: u64) -> u64 {
        *self.0.get(&addr).unwrap_or(&0)
    }

    fn map(&mut self, l1: u64, l2: u64, l3: u64, entry: u64) {
        self.0.insert(directory_entry_address(l1), 0x3);
        self.0.insert(level1_entry_address(l1, l2), 0x3);
        self.0.insert(level2_entry_address(l1, l2, l3), entry);
    }

    fn lookup(&self, va: u64) -> Option<u64> {
        let mut walk = PageTableWalk::new(va);
        loop {
            let e = self.read(walk.entry_address());
            match walk.advance(e) {
                WalkStep::Read(next) => walk = next,
                WalkStep::Done(r) => return r,
            }
        }
    }

    fn traverse(&self) -> Vec<(u64, PageTableEntryAttr)> {
        let mut visits = Vec::new();
        let mut state = TraverseState::start();
        while let Some(addr) = state.pending_read() {
            let (next, visit) = traverse(state, self.read(addr));
            if let Some(v) = visit {
                visits.push(v);
            }
            state = next;
        }
        visits
    }
}

fn va_of(l1: u64, l2: u64, l3: u64) -> u64 {
    (l1 << 30) + (l2 << 21) + (l3 << 12)
}

#[test]
fn walk_finds_the_mapping_entry() {
    let mut mem = Memory(HashMap::new());
    let entry = 0x4_0000_0000 | 0x40 | 0x3;
    mem.map(1, 2, 3, entry);
    assert_eq!(mem.lookup(va_of(1, 2, 3)), Some(entry));
    assert_eq!(mem.lookup(va_of(1, 2, 3) + 0xabc), Some(entry));
    assert_eq!(mem.lookup(va_of(1, 2, 4)), None);
    assert_eq!(mem.lookup(va_of(1, 3, 3)), None);
    assert_eq!(mem.lookup(va_of(2, 2, 3)), None);
    assert_eq!(query(mem.lookup(va_of(1, 2, 3))), Some(attr(true, true, false, false)));
    assert_eq!(query(None), None);
}

#[test]
fn walk_stops_at_an_absent_directory_entry() {
    let mut walk = PageTableWalk::new(va_of(4, 0, 0));
    assert_eq!(walk.entry_address(), directory_entry_address(4));
    assert_eq!(walk.advance(0x4), WalkStep::Done(None));
    assert_eq!(walk.advance(0x1), WalkStep::Read(PageTableWalk { va: va_of(4, 0, 0), level: 1 }));
    walk.level = 2;
    assert_eq!(walk.advance(0x2), WalkStep::Done(Some(0x2)));
}

#[test]
fn traverse_visits_mapped_pages_in_order() {
    let mut mem = Memory(HashMap::new());
    mem.map(3, 4, 5, 0x43 | UXN);
    mem.map(0, 0, 1, 0xc3);
    mem.map(3, 4, 2, 0x43 | COW);
    mem.map(0, 7, 511, 0x43 | LIB);
    let visits = mem.traverse();
    assert_eq!(
        visits,
        vec![
            (va_of(0, 0, 1), attr(true, false, false, false)),
            (va_of(0, 7, 511), attr(true, true, false, true)),
            (va_of(3, 4, 2), attr(true, true, true, false)),
            (va_of(3, 4, 5), attr(false, true, false, false)),
        ]
    );
    for (va, a) in &visits {
        assert_eq!(query(mem.lookup(*va)), Some(*a));
    }
}

#[test]
fn traverse_stops_at_the_limit() {
    let mut mem = Memory(HashMap::new());
    mem.map(509, 511, 511, 0x3);
    // Pages at and above 0x7f_8000_0000 are never visited.
    mem.map(510, 0, 0, 0x3);
    mem.map(510, 3, 3, 0x3);
    let visits = mem.traverse();
    assert_eq!(visits.len(), 1);
    assert_eq!(visits[0].0, va_of(509, 511, 511));
}

#[test]
fn traverse_of_an_empty_table_visits_nothing() {
    let mem = Memory(HashMap::new());
    assert!(mem.traverse().is_empty());
    assert_eq!(TraverseState::Finished.pending_read(), None);
    assert_eq!(TraverseState::start(), TraverseState::Directory { l1x: 0 });
}
