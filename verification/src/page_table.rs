//! Page table entry attributes, their hardware encoding, and walks over the
//! page table that the kernel maps recursively into the top of user space.
use vstd::prelude::*;
use crate::config::{
    ENTRIES_PER_TABLE, PAGE_SIZE, PAGE_TABLE_L1_SHIFT, PAGE_TABLE_L2_SHIFT, PAGE_TABLE_L3_SHIFT,
    RECURSIVE_PAGE_TABLE_BTM, TRAVERSE_LIMIT, WORD_SHIFT, WORD_SIZE,
};
use crate::vm_descriptor::{ap_ro_el1_el0, ap_rw_el1_el0, cow, flag, lib, uxn, AP_MASK, AP_RO_EL1_EL0_BITS, AP_RW_EL1_EL0_BITS, COW_BIT, LIB_BIT, UXN_BIT};

verus! {

/// What user space may do with a page.
#[derive(Clone, Copy, Debug, PartialEq, Eq, Structural)]
pub struct PageTableEntryAttr {
    pub executable: bool,
    pub writable: bool,
    pub copy_on_write: bool,
    pub shared: bool,
}

/// The attributes with no permission set.
pub open spec fn no_attr() -> PageTableEntryAttr {
    PageTableEntryAttr { executable: false, writable: false, copy_on_write: false, shared: false }
}

/// Every permission of `a` and of `b`.
pub open spec fn attr_union(a: PageTableEntryAttr, b: PageTableEntryAttr) -> PageTableEntryAttr {
    PageTableEntryAttr {
        executable: a.executable || b.executable,
        writable: a.writable || b.writable,
        copy_on_write: a.copy_on_write || b.copy_on_write,
        shared: a.shared || b.shared,
    }
}

/// The permissions of `a` that `b` does not have.
pub open spec fn attr_difference(a: PageTableEntryAttr, b: PageTableEntryAttr) -> PageTableEntryAttr {
    PageTableEntryAttr {
        executable: a.executable && !b.executable,
        writable: a.writable && !b.writable,
        copy_on_write: a.copy_on_write && !b.copy_on_write,
        shared: a.shared && !b.shared,
    }
}

impl Default for PageTableEntryAttr {
    fn default() -> (r: Self)
        ensures
            r == no_attr(),
    {
        PageTableEntryAttr { executable: false, writable: false, copy_on_write: false, shared: false }
    }
}

impl PageTableEntryAttr {
    /// Only executable.
    pub fn executable() -> (r: Self)
        ensures
            r == (PageTableEntryAttr { executable: true, ..no_attr() }),
    {
        PageTableEntryAttr { executable: true, writable: false, copy_on_write: false, shared: false }
    }

    /// Only writable.
    pub fn writable() -> (r: Self)
        ensures
            r == (PageTableEntryAttr { writable: true, ..no_attr() }),
    {
        PageTableEntryAttr { executable: false, writable: true, copy_on_write: false, shared: false }
    }

    /// Only copy-on-write.
    pub fn copy_on_write() -> (r: Self)
        ensures
            r == (PageTableEntryAttr { copy_on_write: true, ..no_attr() }),
    {
        PageTableEntryAttr { executable: false, writable: false, copy_on_write: true, shared: false }
    }

    /// Only shared.
    pub fn shared() -> (r: Self)
        ensures
            r == (PageTableEntryAttr { shared: true, ..no_attr() }),
    {
        PageTableEntryAttr { executable: false, writable: false, copy_on_write: false, shared: true }
    }
}

impl core::ops::Add<PageTableEntryAttr> for PageTableEntryAttr {
    type Output = PageTableEntryAttr;

    fn add(self, rhs: PageTableEntryAttr) -> (r: PageTableEntryAttr) {
        PageTableEntryAttr {
            executable: self.executable || rhs.executable,
            writable: self.writable || rhs.writable,
            copy_on_write: self.copy_on_write || rhs.copy_on_write,
            shared: self.shared || rhs.shared,
        }
    }
}

impl vstd::std_specs::ops::AddSpecImpl<PageTableEntryAttr> for PageTableEntryAttr {
    open spec fn obeys_add_spec() -> bool {
        true
    }

    open spec fn add_req(self, rhs: PageTableEntryAttr) -> bool {
        true
    }

    open spec fn add_spec(self, rhs: PageTableEntryAttr) -> PageTableEntryAttr {
        attr_union(self, rhs)
    }
}

impl core::ops::Sub<PageTableEntryAttr> for PageTableEntryAttr {
    type Output = PageTableEntryAttr;

    fn sub(self, rhs: PageTableEntryAttr) -> (r: PageTableEntryAttr) {
        PageTableEntryAttr {
            executable: self.executable && !rhs.executable,
            writable: self.writable && !rhs.writable,
            copy_on_write: self.copy_on_write && !rhs.copy_on_write,
            shared: self.shared && !rhs.shared,
        }
    }
}

impl vstd::std_specs::ops::SubSpecImpl<PageTableEntryAttr> for PageTableEntryAttr {
    open spec fn obeys_sub_spec() -> bool {
        true
    }

    open spec fn sub_req(self, rhs: PageTableEntryAttr) -> bool {
        true
    }

    open spec fn sub_spec(self, rhs: PageTableEntryAttr) -> PageTableEntryAttr {
        attr_difference(self, rhs)
    }
}

/// A page table entry's attribute bits as the hardware reads them.
#[derive(Clone, Copy, Debug, PartialEq, Eq, Structural)]
pub struct ArchPageTableEntryAttr(u64);

/// The descriptor bits that encode `a`: `AP` read/write or read-only,
/// `UXN` unless executable, and the copy-on-write and shared software bits.
pub open spec fn encode_attr(a: PageTableEntryAttr) -> u64 {
    (if a.writable { AP_RW_EL1_EL0_BITS } else { AP_RO_EL1_EL0_BITS })
        | (if a.executable { 0 } else { UXN_BIT })
        | (if a.copy_on_write { COW_BIT } else { 0 })
        | (if a.shared { LIB_BIT } else { 0 })
}

/// The attributes that the descriptor bits `bits` grant.
pub open spec fn decode_attr(bits: u64) -> PageTableEntryAttr {
    PageTableEntryAttr {
        executable: bits & UXN_BIT == 0,
        writable: bits & AP_MASK == AP_RW_EL1_EL0_BITS,
        copy_on_write: bits & COW_BIT != 0,
        shared: bits & LIB_BIT != 0,
    }
}

impl ArchPageTableEntryAttr {
    /// The attribute bits `bits`, as read from a descriptor.
    pub fn new(bits: u64) -> (r: Self)
        ensures
            r.bits() == bits,
    {
        ArchPageTableEntryAttr(bits)
    }

    /// The raw bits.
    pub closed spec fn bits(&self) -> u64 {
        self.0
    }

    /// The attribute with raw bits `bits`.
    pub closed spec fn with_bits(bits: u64) -> ArchPageTableEntryAttr {
        ArchPageTableEntryAttr(bits)
    }

    /// The attribute made with `bits` has exactly those bits.
    pub proof fn lemma_bits(bits: u64)
        ensures
            ArchPageTableEntryAttr::with_bits(bits).bits() == bits,
    {
    }

    /// The raw bits as a system call argument.
    pub fn to_usize(&self) -> (r: usize)
        ensures
            r == self.bits() as usize,
    {
        self.0 as usize
    }
}

impl From<PageTableEntryAttr> for ArchPageTableEntryAttr {
    fn from(pte: PageTableEntryAttr) -> (r: Self) {
        let ap = if pte.writable { ap_rw_el1_el0() } else { ap_ro_el1_el0() };
        let fv = ap.combine(flag(uxn(), !pte.executable)).combine(
            flag(cow(), pte.copy_on_write),
        ).combine(flag(lib(), pte.shared));
        ArchPageTableEntryAttr(fv.value)
    }
}

impl vstd::std_specs::convert::FromSpecImpl<PageTableEntryAttr> for ArchPageTableEntryAttr {
    open spec fn obeys_from_spec() -> bool {
        true
    }

    open spec fn from_spec(pte: PageTableEntryAttr) -> ArchPageTableEntryAttr {
        ArchPageTableEntryAttr::with_bits(encode_attr(pte))
    }
}

impl From<ArchPageTableEntryAttr> for PageTableEntryAttr {
    fn from(apte: ArchPageTableEntryAttr) -> (r: Self) {
        let reg = apte.0;
        PageTableEntryAttr {
            executable: !uxn().is_set(reg),
            writable: ap_rw_el1_el0().matches_all(reg),
            copy_on_write: cow().is_set(reg),
            shared: lib().is_set(reg),
        }
    }
}

impl vstd::std_specs::convert::FromSpecImpl<ArchPageTableEntryAttr> for PageTableEntryAttr {
    open spec fn obeys_from_spec() -> bool {
        true
    }

    open spec fn from_spec(apte: ArchPageTableEntryAttr) -> PageTableEntryAttr {
        decode_attr(apte.bits())
    }
}

/// Every permission of `a` is also one of `b`.
pub open spec fn attr_within(a: PageTableEntryAttr, b: PageTableEntryAttr) -> bool {
    &&& a.executable ==> b.executable
    &&& a.writable ==> b.writable
    &&& a.copy_on_write ==> b.copy_on_write
    &&& a.shared ==> b.shared
}

/// `a` and `b` have no permission in common.
pub open spec fn attr_disjoint(a: PageTableEntryAttr, b: PageTableEntryAttr) -> bool {
    &&& !(a.executable && b.executable)
    &&& !(a.writable && b.writable)
    &&& !(a.copy_on_write && b.copy_on_write)
    &&& !(a.shared && b.shared)
}

/// `a + b` holds every permission of `a` and every permission of `b`, and
/// nothing else: it lies within every attribute that holds both.
pub proof fn lemma_add_is_union(a: PageTableEntryAttr, b: PageTableEntryAttr, c: PageTableEntryAttr)
    ensures
        <PageTableEntryAttr as vstd::std_specs::ops::AddSpec<PageTableEntryAttr>>::obeys_add_spec(),
        <PageTableEntryAttr as vstd::std_specs::ops::AddSpec<PageTableEntryAttr>>::add_req(a, b),
        attr_within(a, <PageTableEntryAttr as vstd::std_specs::ops::AddSpec<PageTableEntryAttr>>::add_spec(a, b)),
        attr_within(b, <PageTableEntryAttr as vstd::std_specs::ops::AddSpec<PageTableEntryAttr>>::add_spec(a, b)),
        attr_within(a, c) && attr_within(b, c) ==> attr_within(
            <PageTableEntryAttr as vstd::std_specs::ops::AddSpec<PageTableEntryAttr>>::add_spec(a, b),
            c,
        ),
{
}

/// `a - b` keeps exactly the permissions of `a` that `b` lacks: it lies
/// within `a`, shares none with `b`, and holds every attribute that lies
/// within `a` and shares none with `b`.
pub proof fn lemma_sub_is_difference(a: PageTableEntryAttr, b: PageTableEntryAttr, c: PageTableEntryAttr)
    ensures
        <PageTableEntryAttr as vstd::std_specs::ops::SubSpec<PageTableEntryAttr>>::obeys_sub_spec(),
        <PageTableEntryAttr as vstd::std_specs::ops::SubSpec<PageTableEntryAttr>>::sub_req(a, b),
        attr_within(<PageTableEntryAttr as vstd::std_specs::ops::SubSpec<PageTableEntryAttr>>::sub_spec(a, b), a),
        attr_disjoint(<PageTableEntryAttr as vstd::std_specs::ops::SubSpec<PageTableEntryAttr>>::sub_spec(a, b), b),
        attr_within(c, a) && attr_disjoint(c, b) ==> attr_within(
            c,
            <PageTableEntryAttr as vstd::std_specs::ops::SubSpec<PageTableEntryAttr>>::sub_spec(a, b),
        ),
{
}

/// The descriptor bits of `a`: the `AP` field is read/write at EL1 and EL0
/// (`0b01`) for a writable attribute and read-only at EL1 and EL0 (`0b11`)
/// otherwise; `UXN` is set exactly where `a` is not executable; the
/// copy-on-write and shared bits are set exactly where `a` has those
/// permissions; and no other bit is set.
pub proof fn lemma_encoding_fields(a: PageTableEntryAttr)
    ensures
        <ArchPageTableEntryAttr as vstd::std_specs::convert::FromSpec<PageTableEntryAttr>>::obeys_from_spec(),
        ({
            let bits = <ArchPageTableEntryAttr as vstd::std_specs::convert::FromSpec<PageTableEntryAttr>>::from_spec(
                a,
            ).bits();
            &&& bits & 0xc0 == (if a.writable { 0x40u64 } else { 0xc0u64 })
            &&& (bits & 0x0040_0000_0000_0000 != 0) == !a.executable
            &&& (bits & 0x0080_0000_0000_0000 != 0) == a.copy_on_write
            &&& (bits & 0x0100_0000_0000_0000 != 0) == a.shared
            &&& bits & 0xfe3f_ffff_ffff_ff3f == 0
        }),
{
    let w = a.writable;
    let x = a.executable;
    let c = a.copy_on_write;
    let s = a.shared;
    let bits = encode_attr(a);
    ArchPageTableEntryAttr::lemma_bits(bits);
    assert(bits == (if w { 0x40u64 } else { 0xc0u64 }) | (if x { 0u64 } else { 0x0040_0000_0000_0000u64 })
        | (if c { 0x0080_0000_0000_0000u64 } else { 0u64 }) | (if s { 0x0100_0000_0000_0000u64 } else { 0u64 }));
    assert(
        bits & 0xc0u64 == (if w { 0x40u64 } else { 0xc0u64 })
        && (bits & 0x0040_0000_0000_0000u64 != 0) == !x
        && (bits & 0x0080_0000_0000_0000u64 != 0) == c
        && (bits & 0x0100_0000_0000_0000u64 != 0) == s
        && bits & 0xfe3f_ffff_ffff_ff3fu64 == 0
    ) by (bit_vector)
        requires
            bits == (if w { 0x40u64 } else { 0xc0u64 }) | (if x { 0u64 } else { 0x0040_0000_0000_0000u64 })
                | (if c { 0x0080_0000_0000_0000u64 } else { 0u64 }) | (if s { 0x0100_0000_0000_0000u64 } else { 0u64 }),
    ;
}

/// The attributes that descriptor bits grant: executable exactly where
/// `UXN` is clear, writable exactly where `AP` is `0b01` (read/write at EL1
/// and EL0), copy-on-write and shared exactly where those bits are set.
pub proof fn lemma_decoding_fields(x: ArchPageTableEntryAttr)
    ensures
        <PageTableEntryAttr as vstd::std_specs::convert::FromSpec<ArchPageTableEntryAttr>>::obeys_from_spec(),
        ({
            let a = <PageTableEntryAttr as vstd::std_specs::convert::FromSpec<ArchPageTableEntryAttr>>::from_spec(x);
            &&& a.executable == (x.bits() & 0x0040_0000_0000_0000 == 0)
            &&& a.writable == (x.bits() & 0xc0 == 0x40)
            &&& a.copy_on_write == (x.bits() & 0x0080_0000_0000_0000 != 0)
            &&& a.shared == (x.bits() & 0x0100_0000_0000_0000 != 0)
        }),
{
}

/// Decoding the descriptor bits that `From` encodes gives back the same
/// attributes.
pub proof fn lemma_from_round_trip(a: PageTableEntryAttr)
    ensures
        <PageTableEntryAttr as vstd::std_specs::convert::FromSpec<ArchPageTableEntryAttr>>::from_spec(
            <ArchPageTableEntryAttr as vstd::std_specs::convert::FromSpec<PageTableEntryAttr>>::from_spec(a),
        ) == a,
{
    lemma_encoding_fields(a);
    lemma_decoding_fields(
        <ArchPageTableEntryAttr as vstd::std_specs::convert::FromSpec<PageTableEntryAttr>>::from_spec(a),
    );
}

/// The attributes with no permission have none of the four permissions
/// and lie within every attribute.
pub proof fn lemma_no_permission(c: PageTableEntryAttr)
    ensures
        attr_within(no_attr(), c),
        !no_attr().executable && !no_attr().writable && !no_attr().copy_on_write && !no_attr().shared,
{
}

/// Encoding attributes into descriptor bits and decoding them again gives
/// back the same attributes.
pub proof fn lemma_decode_encode(a: PageTableEntryAttr)
    ensures
        decode_attr(encode_attr(a)) == a,
{
    let w = a.writable;
    let x = a.executable;
    let c = a.copy_on_write;
    let s = a.shared;
    let bits = encode_attr(a);
    assert(bits == (if w { 0x40u64 } else { 0xc0u64 }) | (if x { 0u64 } else { 0x0040_0000_0000_0000u64 })
        | (if c { 0x0080_0000_0000_0000u64 } else { 0u64 }) | (if s { 0x0100_0000_0000_0000u64 } else { 0u64 }));
    assert(
        (bits & 0x0040_0000_0000_0000u64 == 0) == x
        && (bits & 0xc0u64 == 0x40u64) == w
        && (bits & 0x0080_0000_0000_0000u64 != 0) == c
        && (bits & 0x0100_0000_0000_0000u64 != 0) == s
    ) by (bit_vector)
        requires
            bits == (if w { 0x40u64 } else { 0xc0u64 }) | (if x { 0u64 } else { 0x0040_0000_0000_0000u64 })
                | (if c { 0x0080_0000_0000_0000u64 } else { 0u64 }) | (if s { 0x0100_0000_0000_0000u64 } else { 0u64 }),
    ;
}

/// Index into the page directory (first level) of the page holding `va`.
pub open spec fn l1_index(va: u64) -> int {
    (va as int / 0x4000_0000) % 512
}

/// Index into the second-level table of the page holding `va`.
pub open spec fn l2_index(va: u64) -> int {
    (va as int / 0x20_0000) % 512
}

/// Index into the third-level table of the page holding `va`.
pub open spec fn l3_index(va: u64) -> int {
    (va as int / 0x1000) % 512
}

/// Index of the slot through which the page table maps itself.
pub open spec fn recursive_index() -> int {
    RECURSIVE_PAGE_TABLE_BTM as int / 0x4000_0000
}

/// Where user space reads entry `l1` of the page directory.
pub open spec fn directory_entry_addr(l1: int) -> int {
    RECURSIVE_PAGE_TABLE_BTM + recursive_index() * 0x20_0000 + recursive_index() * 0x1000 + l1 * 8
}

/// Where user space reads entry `l2` of the second-level table under
/// directory entry `l1`.
pub open spec fn level1_entry_addr(l1: int, l2: int) -> int {
    RECURSIVE_PAGE_TABLE_BTM + recursive_index() * 0x20_0000 + l1 * 0x1000 + l2 * 8
}

/// Where user space reads entry `l3` of the third-level table reached
/// through `l1` and `l2`.
pub open spec fn level2_entry_addr(l1: int, l2: int, l3: int) -> int {
    RECURSIVE_PAGE_TABLE_BTM + l1 * 0x20_0000 + l2 * 0x1000 + l3 * 8
}

/// A page table entry that maps something (a table or a page).
pub open spec fn entry_present(e: u64) -> bool {
    e & 3 != 0
}

/// The page table entry that maps `va`, given the words `mem` that user
/// space reads at each address of the recursive window.
pub open spec fn page_table_lookup(mem: spec_fn(u64) -> u64, va: u64) -> Option<u64> {
    let l1 = l1_index(va);
    let l2 = l2_index(va);
    let l3 = l3_index(va);
    if !entry_present(mem(directory_entry_addr(l1) as u64)) {
        None
    } else if !entry_present(mem(level1_entry_addr(l1, l2) as u64)) {
        None
    } else {
        let e = mem(level2_entry_addr(l1, l2, l3) as u64);
        if entry_present(e) { Some(e) } else { None }
    }
}

/// The address of entry `l1_index` of the page directory.
pub fn directory_entry_address(l1_index: u64) -> (a: u64)
    requires
        directory_entry_addr(l1_index as int) <= u64::MAX,
    ensures
        a == directory_entry_addr(l1_index as int),
{
    let l1x = RECURSIVE_PAGE_TABLE_BTM >> PAGE_TABLE_L1_SHIFT;
    let l2x = RECURSIVE_PAGE_TABLE_BTM >> PAGE_TABLE_L1_SHIFT;
    let l3x = l1_index;
    assert(l1x == 511) by (bit_vector)
        requires l1x == 0x7f_c000_0000u64 >> 30u64;
    assert((1u64 << 21u64) == 0x20_0000u64 && (1u64 << 12u64) == 0x1000u64 && (1u64 << 3u64) == 8u64)
        by (bit_vector);
    RECURSIVE_PAGE_TABLE_BTM + l1x * (1u64 << PAGE_TABLE_L2_SHIFT) + l2x * (1u64 << PAGE_TABLE_L3_SHIFT)
        + l3x * (1u64 << WORD_SHIFT)
}

/// The address of entry `l2_index` of the second-level table under
/// directory entry `l1_index`.
pub fn level1_entry_address(l1_index: u64, l2_index: u64) -> (a: u64)
    requires
        level1_entry_addr(l1_index as int, l2_index as int) <= u64::MAX,
    ensures
        a == level1_entry_addr(l1_index as int, l2_index as int),
{
    let l1x = RECURSIVE_PAGE_TABLE_BTM >> PAGE_TABLE_L1_SHIFT;
    let l2x = l1_index;
    let l3x = l2_index;
    assert(l1x == 511) by (bit_vector)
        requires l1x == 0x7f_c000_0000u64 >> 30u64;
    assert((1u64 << 21u64) == 0x20_0000u64 && (1u64 << 12u64) == 0x1000u64 && (1u64 << 3u64) == 8u64)
        by (bit_vector);
    RECURSIVE_PAGE_TABLE_BTM + l1x * (1u64 << PAGE_TABLE_L2_SHIFT) + l2x * (1u64 << PAGE_TABLE_L3_SHIFT)
        + l3x * (1u64 << WORD_SHIFT)
}

/// The address of entry `l3_index` of the third-level table reached
/// through `l1_index` and `l2_index`.
pub fn level2_entry_address(l1_index: u64, l2_index: u64, l3_index: u64) -> (a: u64)
    requires
        level2_entry_addr(l1_index as int, l2_index as int, l3_index as int) <= u64::MAX,
    ensures
        a == level2_entry_addr(l1_index as int, l2_index as int, l3_index as int),
{
    let l1x = l1_index;
    let l2x = l2_index;
    let l3x = l3_index;
    assert((1u64 << 21u64) == 0x20_0000u64 && (1u64 << 12u64) == 0x1000u64 && (1u64 << 3u64) == 8u64)
        by (bit_vector);
    RECURSIVE_PAGE_TABLE_BTM + l1x * (1u64 << PAGE_TABLE_L2_SHIFT) + l2x * (1u64 << PAGE_TABLE_L3_SHIFT)
        + l3x * (1u64 << WORD_SHIFT)
}

/// The three table indices of `va`.
pub fn table_indices(va: u64) -> (r: (u64, u64, u64))
    ensures
        r.0 == l1_index(va),
        r.1 == l2_index(va),
        r.2 == l3_index(va),
{
    let mask = PAGE_SIZE / WORD_SIZE - 1;
    let l1x = (va >> PAGE_TABLE_L1_SHIFT) & mask;
    let l2x = (va >> PAGE_TABLE_L2_SHIFT) & mask;
    let l3x = (va >> PAGE_TABLE_L3_SHIFT) & mask;
    assert(l1x == (va / 0x4000_0000u64) % 512u64) by (bit_vector)
        requires l1x == (va >> 30u64) & 511u64;
    assert(l2x == (va / 0x20_0000u64) % 512u64) by (bit_vector)
        requires l2x == (va >> 21u64) & 511u64;
    assert(l3x == (va / 0x1000u64) % 512u64) by (bit_vector)
        requires l3x == (va >> 12u64) & 511u64;
    (l1x, l2x, l3x)
}

/// A walk from the page directory down to the entry that maps `va`;
/// `level` is the table whose entry is read next (0: directory,
/// 1: second level, 2: third level).
#[derive(Clone, Copy, Debug, PartialEq, Eq, Structural)]
pub struct PageTableWalk {
    pub va: u64,
    pub level: u8,
}

/// What a walk does after an entry was read.
#[derive(Clone, Copy, Debug, PartialEq, Eq, Structural)]
pub enum WalkStep {
    /// Read the entry of the next level.
    Read(PageTableWalk),
    /// The walk is over: the entry that maps the address, if any.
    Done(Option<u64>),
}

impl PageTableWalk {
    /// The walk stands at one of the three levels.
    pub open spec fn wf(self) -> bool {
        self.level <= 2
    }

    /// The address of the entry that this step of the walk reads.
    pub open spec fn spec_entry_address(self) -> u64 {
        let l1 = l1_index(self.va);
        let l2 = l2_index(self.va);
        let l3 = l3_index(self.va);
        if self.level == 0 {
            directory_entry_addr(l1) as u64
        } else if self.level == 1 {
            level1_entry_addr(l1, l2) as u64
        } else {
            level2_entry_addr(l1, l2, l3) as u64
        }
    }

    /// What the walk does once `entry` was read at its current level.
    pub open spec fn spec_advance(self, entry: u64) -> WalkStep {
        if !entry_present(entry) {
            WalkStep::Done(None)
        } else if self.level >= 2 {
            WalkStep::Done(Some(entry))
        } else {
            WalkStep::Read(PageTableWalk { va: self.va, level: (self.level + 1) as u8 })
        }
    }

    /// The walk's result when every entry it reads comes from `mem`.
    pub open spec fn run(self, mem: spec_fn(u64) -> u64) -> Option<u64>
        decreases 2 - self.level,
    {
        if !self.wf() {
            None
        } else {
            match self.spec_advance(mem(self.spec_entry_address())) {
                WalkStep::Done(r) => r,
                WalkStep::Read(next) => next.run(mem),
            }
        }
    }

    /// A walk that starts at the page directory.
    pub fn new(va: u64) -> (w: PageTableWalk)
        ensures
            w == (PageTableWalk { va, level: 0 }),
    {
        PageTableWalk { va, level: 0 }
    }

    /// The address of the entry that this step of the walk reads.
    pub fn entry_address(&self) -> (a: u64)
        requires
            self.wf(),
        ensures
            a == self.spec_entry_address(),
    {
        let (l1x, l2x, l3x) = table_indices(self.va);
        if self.level == 0 {
            directory_entry_address(l1x)
        } else if self.level == 1 {
            level1_entry_address(l1x, l2x)
        } else {
            level2_entry_address(l1x, l2x, l3x)
        }
    }

    /// Continue the walk with the entry read at `self.entry_address()`.
    pub fn advance(self, entry: u64) -> (step: WalkStep)
        requires
            self.wf(),
        ensures
            step == self.spec_advance(entry),
            step matches WalkStep::Read(next) ==> next.wf() && next.va == self.va,
    {
        if entry & 0b11 == 0 {
            WalkStep::Done(None)
        } else if self.level >= 2 {
            WalkStep::Done(Some(entry))
        } else {
            WalkStep::Read(PageTableWalk { va: self.va, level: self.level + 1 })
        }
    }
}

/// A walk that starts at the page directory and reads its entries from
/// `mem` ends with the entry that maps `va` in `mem`.
pub proof fn lemma_walk_finds_entry(mem: spec_fn(u64) -> u64, va: u64)
    ensures
        (PageTableWalk { va, level: 0 }).run(mem) == page_table_lookup(mem, va),
{
    let w0 = PageTableWalk { va, level: 0 };
    let w1 = PageTableWalk { va, level: 1 };
    let w2 = PageTableWalk { va, level: 2 };
    assert(w2.run(mem) == (if entry_present(mem(w2.spec_entry_address())) {
        Some(mem(w2.spec_entry_address()))
    } else {
        None
    })) by {
        reveal_with_fuel(PageTableWalk::run, 2);
    }
    assert(w1.run(mem) == (if entry_present(mem(w1.spec_entry_address())) { w2.run(mem) } else { None }));
    assert(w0.run(mem) == (if entry_present(mem(w0.spec_entry_address())) { w1.run(mem) } else { None }));
}

/// Where each entry is read, in numbers: directory entries fill the last
/// page of the window, at 0x7f_ffff_f000; the second-level tables follow one
/// another from 0x7f_ffe0_0000; the third-level tables from the bottom of
/// the window, 0x7f_c000_0000; each entry is 8 bytes wide.
pub proof fn lemma_entry_addresses(l1: int, l2: int, l3: int)
    ensures
        directory_entry_addr(l1) == 0x7f_ffff_f000 + l1 * 8,
        level1_entry_addr(l1, l2) == 0x7f_ffe0_0000 + l1 * 0x1000 + l2 * 8,
        level2_entry_addr(l1, l2, l3) == 0x7f_c000_0000 + l1 * 0x20_0000 + l2 * 0x1000 + l3 * 8,
{
}

/// What one step of a walk does with the entry it read: an entry whose two
/// low bits are both clear maps nothing and ends the walk without a result;
/// any other entry at the third level is the result; any other entry at the
/// first two levels leads to the next level for the same address.
pub proof fn lemma_walk_step(w: PageTableWalk, entry: u64)
    requires
        w.wf(),
    ensures
        entry & 3 == 0 ==> w.spec_advance(entry) == WalkStep::Done(None),
        entry & 3 != 0 && w.level == 2 ==> w.spec_advance(entry) == WalkStep::Done(Some(entry)),
        entry & 3 != 0 && w.level < 2 ==> w.spec_advance(entry) == WalkStep::Read(
            (PageTableWalk { va: w.va, level: (w.level + 1) as u8 }),
        ),
{
}

/// The table indices of an address are its bits 30..38, 21..29 and 12..20.
pub proof fn lemma_indices_are_bit_fields(va: u64)
    ensures
        l1_index(va) == (va >> 30u64) & 511,
        l2_index(va) == (va >> 21u64) & 511,
        l3_index(va) == (va >> 12u64) & 511,
{
    assert((va >> 30u64) & 511u64 == (va / 0x4000_0000u64) % 512u64) by (bit_vector);
    assert((va >> 21u64) & 511u64 == (va / 0x20_0000u64) % 512u64) by (bit_vector);
    assert((va >> 12u64) & 511u64 == (va / 0x1000u64) % 512u64) by (bit_vector);
}

/// The attributes of the page that `pte` maps, if any.
pub fn query(pte: Option<u64>) -> (r: Option<PageTableEntryAttr>)
    ensures
        r == (match pte {
            Some(e) => Some(decode_attr(e)),
            None => None,
        }),
{
    match pte {
        Some(e) => Some(PageTableEntryAttr::from(ArchPageTableEntryAttr(e))),
        None => None,
    }
}

/// The first address of the page reached through table indices `l1`,
/// `l2` and `l3`.
pub open spec fn page_va(l1: int, l2: int, l3: int) -> int {
    l1 * 0x4000_0000 + l2 * 0x20_0000 + l3 * 0x1000
}

/// Where a traversal of the page table stands: the entry it reads next.
#[derive(Clone, Copy, Debug, PartialEq, Eq, Structural)]
pub enum TraverseState {
    /// Read entry `l1x` of the page directory.
    Directory { l1x: u64 },
    /// Read entry `l2x` of the second-level table under directory entry `l1x`.
    Level1 { l1x: u64, l2x: u64 },
    /// Read entry `l3x` of the third-level table under `l1x` and `l2x`.
    Level2 { l1x: u64, l2x: u64, l3x: u64 },
    /// Nothing is left to read.
    Finished,
}

/// The state that reads directory entry `l1`, or the end.
pub open spec fn next_directory(l1: int) -> TraverseState {
    if l1 < 512 {
        TraverseState::Directory { l1x: l1 as u64 }
    } else {
        TraverseState::Finished
    }
}

/// The state that reads entry `l2` of the second-level table under `l1`,
/// or what follows that table.
pub open spec fn next_level1(l1: int, l2: int) -> TraverseState {
    if l2 < 512 {
        TraverseState::Level1 { l1x: l1 as u64, l2x: l2 as u64 }
    } else {
        next_directory(l1 + 1)
    }
}

/// The state that reads entry `l3` of a third-level table, or the end
/// where its page lies at or above the traversal limit.
pub open spec fn enter_level2(l1: int, l2: int, l3: int) -> TraverseState {
    if page_va(l1, l2, l3) >= TRAVERSE_LIMIT {
        TraverseState::Finished
    } else {
        TraverseState::Level2 { l1x: l1 as u64, l2x: l2 as u64, l3x: l3 as u64 }
    }
}

impl TraverseState {
    /// Every index lies within its table, and a third-level entry is read
    /// only for a page below the traversal limit.
    pub open spec fn wf(self) -> bool {
        match self {
            TraverseState::Directory { l1x } => l1x < 512,
            TraverseState::Level1 { l1x, l2x } => l1x < 512 && l2x < 512,
            TraverseState::Level2 { l1x, l2x, l3x } => l1x < 512 && l2x < 512 && l3x < 512
                && page_va(l1x as int, l2x as int, l3x as int) < TRAVERSE_LIMIT,
            TraverseState::Finished => true,
        }
    }

    /// The address that this state reads, unless it is the end.
    pub open spec fn spec_pending_read(self) -> Option<u64> {
        match self {
            TraverseState::Directory { l1x } => Some(directory_entry_addr(l1x as int) as u64),
            TraverseState::Level1 { l1x, l2x } => Some(level1_entry_addr(l1x as int, l2x as int) as u64),
            TraverseState::Level2 { l1x, l2x, l3x } => Some(
                level2_entry_addr(l1x as int, l2x as int, l3x as int) as u64,
            ),
            TraverseState::Finished => None,
        }
    }

    /// The state after `entry` was read, and the page it visits, if any.
    pub open spec fn spec_step(self, entry: u64) -> (TraverseState, Option<(u64, PageTableEntryAttr)>) {
        match self {
            TraverseState::Directory { l1x } => if entry_present(entry) {
                (TraverseState::Level1 { l1x, l2x: 0 }, None)
            } else {
                (next_directory(l1x + 1), None)
            },
            TraverseState::Level1 { l1x, l2x } => if entry_present(entry) {
                (enter_level2(l1x as int, l2x as int, 0), None)
            } else {
                (next_level1(l1x as int, l2x + 1), None)
            },
            TraverseState::Level2 { l1x, l2x, l3x } => {
                let next = if l3x + 1 < 512 {
                    enter_level2(l1x as int, l2x as int, l3x + 1)
                } else {
                    next_level1(l1x as int, l2x + 1)
                };
                let visit = if entry_present(entry) {
                    Some((page_va(l1x as int, l2x as int, l3x as int) as u64, decode_attr(entry)))
                } else {
                    None
                };
                (next, visit)
            },
            TraverseState::Finished => (TraverseState::Finished, None),
        }
    }

    /// The first-level part of the measure that each step decreases
    /// (lexicographically, with `rank2` and `rank3`).
    pub open spec fn rank1(self) -> int {
        match self {
            TraverseState::Directory { l1x } => 512 - l1x,
            TraverseState::Level1 { l1x, .. } => 512 - l1x,
            TraverseState::Level2 { l1x, .. } => 512 - l1x,
            TraverseState::Finished => 0,
        }
    }

    /// The second-level part of the measure.
    pub open spec fn rank2(self) -> int {
        match self {
            TraverseState::Directory { .. } => 513,
            TraverseState::Level1 { l2x, .. } => 512 - l2x,
            TraverseState::Level2 { l2x, .. } => 512 - l2x,
            TraverseState::Finished => 0,
        }
    }

    /// The third-level part of the measure.
    pub open spec fn rank3(self) -> int {
        match self {
            TraverseState::Directory { .. } => 513,
            TraverseState::Level1 { .. } => 513,
            TraverseState::Level2 { l3x, .. } => 512 - l3x,
            TraverseState::Finished => 0,
        }
    }

    /// The pages that a traversal from this state visits when every entry
    /// it reads comes from `mem`, in the order it visits them.
    pub open spec fn run(self, mem: spec_fn(u64) -> u64) -> Seq<(u64, PageTableEntryAttr)>
        decreases self.rank1(), self.rank2(), self.rank3(),
    {
        if !self.wf() {
            Seq::empty()
        } else {
            match self.spec_pending_read() {
                None => Seq::empty(),
                Some(addr) => {
                    let (next, visit) = self.spec_step(mem(addr));
                    match visit {
                        Some(v) => seq![v] + next.run(mem),
                        None => next.run(mem),
                    }
                },
            }
        }
    }

    /// A traversal that starts at the first entry of the page directory.
    pub fn start() -> (s: TraverseState)
        ensures
            s == (TraverseState::Directory { l1x: 0 }),
            s.wf(),
    {
        TraverseState::Directory { l1x: 0 }
    }

    /// The address of the entry to read next, or `None` at the end.
    pub fn pending_read(&self) -> (r: Option<u64>)
        requires
            self.wf(),
        ensures
            r == self.spec_pending_read(),
    {
        match *self {
            TraverseState::Directory { l1x } => Some(directory_entry_address(l1x)),
            TraverseState::Level1 { l1x, l2x } => Some(level1_entry_address(l1x, l2x)),
            TraverseState::Level2 { l1x, l2x, l3x } => Some(level2_entry_address(l1x, l2x, l3x)),
            TraverseState::Finished => None,
        }
    }
}

/// The first address of the page reached through `l1x`, `l2x` and `l3x`.
fn index_va(l1x: u64, l2x: u64, l3x: u64) -> (va: u64)
    requires
        l1x < 512,
        l2x < 512,
        l3x < 512,
    ensures
        va == page_va(l1x as int, l2x as int, l3x as int),
{
    assert((l1x << 30u64) == l1x * 0x4000_0000u64) by (bit_vector)
        requires l1x < 512u64;
    assert((l2x << 21u64) == l2x * 0x20_0000u64) by (bit_vector)
        requires l2x < 512u64;
    assert((l3x << 12u64) == l3x * 0x1000u64) by (bit_vector)
        requires l3x < 512u64;
    (l1x << PAGE_TABLE_L1_SHIFT) + (l2x << PAGE_TABLE_L2_SHIFT) + (l3x << PAGE_TABLE_L3_SHIFT)
}

/// One step of a traversal of the page table: `entry` is the word read at
/// `state.pending_read()`. Gives the next state and the page to visit, if
/// any: a page that a third-level entry maps, with its attributes.
pub fn traverse(state: TraverseState, entry: u64) -> (r: (TraverseState, Option<(u64, PageTableEntryAttr)>))
    requires
        state.wf(),
        state != TraverseState::Finished,
    ensures
        r == state.spec_step(entry),
        r.0.wf(),
{
    let present = entry & 0b11 != 0;
    match state {
        TraverseState::Directory { l1x } => {
            if present {
                (TraverseState::Level1 { l1x, l2x: 0 }, None)
            } else {
                (next_directory_state(l1x + 1), None)
            }
        },
        TraverseState::Level1 { l1x, l2x } => {
            if present {
                (enter_level2_state(l1x, l2x, 0), None)
            } else {
                (next_level1_state(l1x, l2x + 1), None)
            }
        },
        TraverseState::Level2 { l1x, l2x, l3x } => {
            let next = if l3x + 1 < ENTRIES_PER_TABLE {
                enter_level2_state(l1x, l2x, l3x + 1)
            } else {
                next_level1_state(l1x, l2x + 1)
            };
            let visit = if present {
                let va = index_va(l1x, l2x, l3x);
                Some((va, PageTableEntryAttr::from(ArchPageTableEntryAttr(entry))))
            } else {
                None
            };
            (next, visit)
        },
        TraverseState::Finished => (TraverseState::Finished, None),
    }
}

fn next_directory_state(l1x: u64) -> (s: TraverseState)
    requires
        l1x <= 512,
    ensures
        s == next_directory(l1x as int),
        s.wf(),
{
    if l1x < ENTRIES_PER_TABLE {
        TraverseState::Directory { l1x }
    } else {
        TraverseState::Finished
    }
}

fn next_level1_state(l1x: u64, l2x: u64) -> (s: TraverseState)
    requires
        l1x < 512,
        l2x <= 512,
    ensures
        s == next_level1(l1x as int, l2x as int),
        s.wf(),
{
    if l2x < ENTRIES_PER_TABLE {
        TraverseState::Level1 { l1x, l2x }
    } else {
        next_directory_state(l1x + 1)
    }
}

fn enter_level2_state(l1x: u64, l2x: u64, l3x: u64) -> (s: TraverseState)
    requires
        l1x < 512,
        l2x < 512,
        l3x < 512,
    ensures
        s == enter_level2(l1x as int, l2x as int, l3x as int),
        s.wf(),
{
    let va = index_va(l1x, l2x, l3x);
    if va >= TRAVERSE_LIMIT {
        TraverseState::Finished
    } else {
        TraverseState::Level2 { l1x, l2x, l3x }
    }
}

/// The indices of the page that starts at `page_va(l1, l2, l3)` are `l1`,
/// `l2` and `l3`.
proof fn lemma_indices_of_page_va(l1: int, l2: int, l3: int)
    requires
        0 <= l1 < 512,
        0 <= l2 < 512,
        0 <= l3 < 512,
    ensures
        0 <= page_va(l1, l2, l3) < 0x80_0000_0000,
        page_va(l1, l2, l3) % 0x1000 == 0,
        l1_index(page_va(l1, l2, l3) as u64) == l1,
        l2_index(page_va(l1, l2, l3) as u64) == l2,
        l3_index(page_va(l1, l2, l3) as u64) == l3,
{
    let va = page_va(l1, l2, l3);
    assert(va / 0x4000_0000 == l1);
    assert(va / 0x20_0000 == l1 * 512 + l2);
    assert(va / 0x1000 == l1 * 0x4_0000 + l2 * 512 + l3);
    assert((l1 * 512 + l2) % 512 == l2);
    assert((l1 * 0x4_0000 + l2 * 512 + l3) % 512 == l3);
}

/// A page-aligned address below 2^39 is the page reached through its own
/// indices.
proof fn lemma_page_va_of_indices(va: u64)
    requires
        va % 0x1000 == 0,
        va < 0x80_0000_0000,
    ensures
        va == page_va(l1_index(va), l2_index(va), l3_index(va)),
        0 <= l1_index(va) < 512,
        0 <= l2_index(va) < 512,
        0 <= l3_index(va) < 512,
{
    let p = va as int / 0x1000;
    assert(va == p * 0x1000);
    assert(va as int / 0x20_0000 == p / 512);
    assert(va as int / 0x4000_0000 == p / 0x4_0000);
    assert(p / 0x4_0000 < 512);
    assert(p == (p / 0x4_0000) * 0x4_0000 + ((p / 512) % 512) * 512 + p % 512);
}

impl TraverseState {
    /// The entries above this state's position map tables in `mem`.
    pub open spec fn context(self, mem: spec_fn(u64) -> u64) -> bool {
        match self {
            TraverseState::Directory { .. } => true,
            TraverseState::Level1 { l1x, .. } => entry_present(mem(directory_entry_addr(l1x as int) as u64)),
            TraverseState::Level2 { l1x, l2x, .. } => entry_present(mem(directory_entry_addr(l1x as int) as u64))
                && entry_present(mem(level1_entry_addr(l1x as int, l2x as int) as u64)),
            TraverseState::Finished => true,
        }
    }

    /// The first address that a traversal from this state can still visit
    /// (the traversal limit where it can visit none).
    pub open spec fn position(self) -> int {
        let p = match self {
            TraverseState::Directory { l1x } => page_va(l1x as int, 0, 0),
            TraverseState::Level1 { l1x, l2x } => page_va(l1x as int, l2x as int, 0),
            TraverseState::Level2 { l1x, l2x, l3x } => page_va(l1x as int, l2x as int, l3x as int),
            TraverseState::Finished => TRAVERSE_LIMIT as int,
        };
        if p < TRAVERSE_LIMIT { p } else { TRAVERSE_LIMIT as int }
    }
}

/// `mem` maps the page at `va`, which lies below the traversal limit.
pub open spec fn page_mapped(mem: spec_fn(u64) -> u64, va: u64) -> bool {
    &&& va % PAGE_SIZE == 0
    &&& va < TRAVERSE_LIMIT
    &&& page_table_lookup(mem, va) is Some
}

/// The page at `va` with the attributes of the entry that maps it in `mem`.
pub open spec fn page_visit(mem: spec_fn(u64) -> u64, va: u64) -> (u64, PageTableEntryAttr) {
    (va, decode_attr(page_table_lookup(mem, va)->0))
}

/// The visits of an optional visit.
pub open spec fn visit_seq(v: Option<(u64, PageTableEntryAttr)>) -> Seq<(u64, PageTableEntryAttr)> {
    match v {
        Some(x) => seq![x],
        None => Seq::empty(),
    }
}

proof fn lemma_run_unfold(mem: spec_fn(u64) -> u64, s: TraverseState)
    requires
        s.wf(),
        s != TraverseState::Finished,
    ensures
        s.run(mem) == visit_seq(s.spec_step(mem(s.spec_pending_read()->0)).1) + s.spec_step(
            mem(s.spec_pending_read()->0),
        ).0.run(mem),
{
    let (next, visit) = s.spec_step(mem(s.spec_pending_read()->0));
    match visit {
        Some(v) => {},
        None => {
            assert(visit_seq(visit) + next.run(mem) =~= next.run(mem));
        },
    }
}

/// A mapped page below the traversal limit has indices below 512 and is
/// the page they reach.
proof fn lemma_mapped_indices(mem: spec_fn(u64) -> u64, va: u64)
    requires
        page_mapped(mem, va),
    ensures
        va == page_va(l1_index(va), l2_index(va), l3_index(va)),
        0 <= l1_index(va) < 512,
        0 <= l2_index(va) < 512,
        0 <= l3_index(va) < 512,
{
    lemma_page_va_of_indices(va);
}

/// One step of a traversal from `s` that reads `e`: the next state is well
/// formed with its context, it does not move back, what it visits is the
/// mapped page at its position, and no mapped page between its position
/// and the next state's position goes unvisited.
spec fn step_sound(mem: spec_fn(u64) -> u64, s: TraverseState, e: u64) -> bool {
    let (next, visit) = s.spec_step(e);
    &&& next.wf()
    &&& next.context(mem)
    &&& s.position() <= next.position()
    &&& (visit matches Some(v) ==> v.0 == s.position() && page_mapped(mem, v.0) && v == page_visit(mem, v.0)
        && s.position() < next.position())
    &&& forall|va: u64|
        page_mapped(mem, va) && s.position() <= va && va < next.position() ==> visit == Some(
            #[trigger] page_visit(mem, va),
        )
}

proof fn lemma_step_directory(mem: spec_fn(u64) -> u64, l1x: u64)
    requires
        l1x < 512,
    ensures
        step_sound(mem, (TraverseState::Directory { l1x }), mem(directory_entry_addr(l1x as int) as u64)),
{
    let s = TraverseState::Directory { l1x };
    let e = mem(directory_entry_addr(l1x as int) as u64);
    let (next, visit) = s.spec_step(e);
    assert forall|va: u64|
        page_mapped(mem, va) && s.position() <= va && va < next.position() implies visit == Some(
        #[trigger] page_visit(mem, va),
    ) by {
        lemma_mapped_indices(mem, va);
        assert(va < (l1x + 1) * 0x4000_0000);
        assert(l1_index(va) == l1x);
    }
}

proof fn lemma_step_level1(mem: spec_fn(u64) -> u64, l1x: u64, l2x: u64)
    requires
        l1x < 512,
        l2x < 512,
        entry_present(mem(directory_entry_addr(l1x as int) as u64)),
    ensures
        step_sound(
            mem,
            (TraverseState::Level1 { l1x, l2x }),
            mem(level1_entry_addr(l1x as int, l2x as int) as u64),
        ),
{
    let s = TraverseState::Level1 { l1x, l2x };
    let e = mem(level1_entry_addr(l1x as int, l2x as int) as u64);
    let (next, visit) = s.spec_step(e);
    assert forall|va: u64|
        page_mapped(mem, va) && s.position() <= va && va < next.position() implies visit == Some(
        #[trigger] page_visit(mem, va),
    ) by {
        lemma_mapped_indices(mem, va);
        assert(l1_index(va) == l1x);
        assert(l2_index(va) == l2x);
    }
}

proof fn lemma_step_level2(mem: spec_fn(u64) -> u64, l1x: u64, l2x: u64, l3x: u64)
    requires
        (TraverseState::Level2 { l1x, l2x, l3x }).wf(),
        (TraverseState::Level2 { l1x, l2x, l3x }).context(mem),
    ensures
        step_sound(
            mem,
            (TraverseState::Level2 { l1x, l2x, l3x }),
            mem(level2_entry_addr(l1x as int, l2x as int, l3x as int) as u64),
        ),
{
    let s = TraverseState::Level2 { l1x, l2x, l3x };
    let e = mem(level2_entry_addr(l1x as int, l2x as int, l3x as int) as u64);
    let (next, visit) = s.spec_step(e);
    let p = page_va(l1x as int, l2x as int, l3x as int);
    lemma_level2_visit(mem, l1x, l2x, l3x);
    lemma_level2_next_position(l1x, l2x, l3x);
    assert(s.position() == p);
    assert(next.position() <= p + 0x1000);
    assert forall|va: u64|
        page_mapped(mem, va) && s.position() <= va && va < next.position() implies visit == Some(
        #[trigger] page_visit(mem, va),
    ) by {
        lemma_only_page_in_gap(va, p);
    }
}

/// What a traversal visits at a third-level entry: the page it stands at,
/// where `mem` maps it.
proof fn lemma_level2_visit(mem: spec_fn(u64) -> u64, l1x: u64, l2x: u64, l3x: u64)
    requires
        (TraverseState::Level2 { l1x, l2x, l3x }).wf(),
        (TraverseState::Level2 { l1x, l2x, l3x }).context(mem),
    ensures
        ({
            let p = page_va(l1x as int, l2x as int, l3x as int) as u64;
            let e = mem(level2_entry_addr(l1x as int, l2x as int, l3x as int) as u64);
            &&& p % PAGE_SIZE == 0
            &&& page_mapped(mem, p) == entry_present(e)
            &&& (entry_present(e) ==> page_visit(mem, p) == (p, decode_attr(e)))
        }),
{
    let p = page_va(l1x as int, l2x as int, l3x as int);
    let e = mem(level2_entry_addr(l1x as int, l2x as int, l3x as int) as u64);
    lemma_indices_of_page_va(l1x as int, l2x as int, l3x as int);
    assert(page_table_lookup(mem, p as u64) == (if entry_present(e) { Some(e) } else { None }));
}

/// The only page-aligned address in the page that starts at `p`.
proof fn lemma_only_page_in_gap(va: u64, p: int)
    requires
        va % 0x1000 == 0,
        p % 0x1000 == 0,
        p <= va < p + 0x1000,
    ensures
        va == p,
{
}

/// After the third-level entry at `page_va(l1x, l2x, l3x)`, a traversal
/// stands at the next page, or at the limit where that page is past it.
proof fn lemma_level2_next_position(l1x: u64, l2x: u64, l3x: u64)
    requires
        (TraverseState::Level2 { l1x, l2x, l3x }).wf(),
    ensures
        ({
            let p = page_va(l1x as int, l2x as int, l3x as int);
            let next = if l3x + 1 < 512 {
                enter_level2(l1x as int, l2x as int, l3x + 1)
            } else {
                next_level1(l1x as int, l2x + 1)
            };
            &&& next.wf()
            &&& next.position() == (if p + 0x1000 < TRAVERSE_LIMIT { p + 0x1000 } else { TRAVERSE_LIMIT as int })
        }),
{
}

proof fn lemma_step(mem: spec_fn(u64) -> u64, s: TraverseState)
    requires
        s.wf(),
        s.context(mem),
        s != TraverseState::Finished,
    ensures
        step_sound(mem, s, mem(s.spec_pending_read()->0)),
{
    match s {
        TraverseState::Directory { l1x } => lemma_step_directory(mem, l1x),
        TraverseState::Level1 { l1x, l2x } => lemma_step_level1(mem, l1x, l2x),
        TraverseState::Level2 { l1x, l2x, l3x } => lemma_step_level2(mem, l1x, l2x, l3x),
        TraverseState::Finished => {},
    }
}

/// What a traversal from `s` visits: exactly the mapped pages from its
/// position up to the traversal limit, in increasing order.
proof fn lemma_run_from(mem: spec_fn(u64) -> u64, s: TraverseState)
    requires
        s.wf(),
        s.context(mem),
    ensures
        forall|i: int| 0 <= i < s.run(mem).len() ==> s.position() <= (#[trigger] s.run(mem)[i]).0
            && page_mapped(mem, s.run(mem)[i].0) && s.run(mem)[i] == page_visit(mem, s.run(mem)[i].0),
        forall|va: u64| s.position() <= va && #[trigger] page_mapped(mem, va)
            ==> s.run(mem).contains(page_visit(mem, va)),
        forall|i: int, j: int| 0 <= i < j < s.run(mem).len() ==> s.run(mem)[i].0 < s.run(mem)[j].0,
    decreases s.rank1(), s.rank2(), s.rank3(),
{
    if s != TraverseState::Finished {
        let e = mem(s.spec_pending_read()->0);
        let (next, visit) = s.spec_step(e);
        lemma_step(mem, s);
        lemma_run_from(mem, next);
        lemma_run_unfold(mem, s);
        let r = s.run(mem);
        let rn = next.run(mem);
        let vs = visit_seq(visit);
        assert(r == vs + rn);
        assert forall|i: int| 0 <= i < r.len() implies s.position() <= (#[trigger] r[i]).0
            && page_mapped(mem, r[i].0) && r[i] == page_visit(mem, r[i].0) by {
            if i >= vs.len() {
                assert(r[i] == rn[i - vs.len()]);
            }
        }
        assert forall|va: u64| s.position() <= va && #[trigger] page_mapped(mem, va)
            implies r.contains(page_visit(mem, va)) by {
            if va < next.position() {
                assert(r[0] == page_visit(mem, va));
            } else {
                assert(rn.contains(page_visit(mem, va)));
                let k = choose|k: int| 0 <= k < rn.len() && rn[k] == page_visit(mem, va);
                assert(r[k + vs.len()] == rn[k]);
            }
        }
        assert forall|i: int, j: int| 0 <= i < j < r.len() implies r[i].0 < r[j].0 by {
            if i >= vs.len() {
                assert(r[i] == rn[i - vs.len()]);
                assert(r[j] == rn[j - vs.len()]);
            } else {
                assert(r[j] == rn[j - vs.len()]);
                assert(next.position() <= rn[j - vs.len()].0);
            }
        }
    }
}

/// Every step of a traversal makes progress, so a traversal ends: the
/// state after a step is well formed and lexicographically smaller in
/// (`rank1`, `rank2`, `rank3`), each of which lies between 0 and 513.
pub proof fn lemma_traverse_step_progresses(s: TraverseState, entry: u64)
    requires
        s.wf(),
        s != TraverseState::Finished,
    ensures
        ({
            let next = s.spec_step(entry).0;
            &&& next.wf()
            &&& 0 <= next.rank1() <= 513 && 0 <= next.rank2() <= 513 && 0 <= next.rank3() <= 513
            &&& (next.rank1() < s.rank1() || (next.rank1() == s.rank1() && (next.rank2() < s.rank2() || (
            next.rank2() == s.rank2() && next.rank3() < s.rank3()))))
        }),
{
}

/// The pages that a whole traversal of the page table visits when every
/// entry it reads comes from `mem`.
pub open spec fn full_traversal(mem: spec_fn(u64) -> u64) -> Seq<(u64, PageTableEntryAttr)> {
    TraverseState::Directory { l1x: 0 }.run(mem)
}

/// A traversal of the page table that starts at the first directory entry
/// and reads every entry from `mem` visits exactly the pages below the
/// traversal limit that a lookup in `mem` finds mapped, each once, with the
/// attributes that `query` gives for its entry, in increasing order of
/// address.
pub proof fn lemma_traverse_visits_mapped_pages(mem: spec_fn(u64) -> u64)
    ensures
        forall|i: int| 0 <= i < full_traversal(mem).len() ==> {
            let (va, attr) = #[trigger] full_traversal(mem)[i];
            &&& va % PAGE_SIZE == 0
            &&& va < TRAVERSE_LIMIT
            &&& (page_table_lookup(mem, va) matches Some(e) && attr == decode_attr(e))
        },
        forall|va: u64|
            va % PAGE_SIZE == 0 && va < TRAVERSE_LIMIT && #[trigger] page_table_lookup(mem, va) is Some
                ==> full_traversal(mem).contains((va, decode_attr(page_table_lookup(mem, va)->0))),
        forall|i: int, j: int|
            0 <= i < j < full_traversal(mem).len() ==> full_traversal(mem)[i].0 < full_traversal(mem)[j].0,
{
    let s = TraverseState::Directory { l1x: 0 };
    lemma_run_from(mem, s);
    assert forall|va: u64|
        va % PAGE_SIZE == 0 && va < TRAVERSE_LIMIT && #[trigger] page_table_lookup(mem, va) is Some
            implies full_traversal(mem).contains((va, decode_attr(page_table_lookup(mem, va)->0))) by {
        assert(page_mapped(mem, va));
    }
}

} // verus!
