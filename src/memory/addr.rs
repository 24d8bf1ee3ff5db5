use vstd::prelude::*;

verus! {

/// Size of a page frame, the alignment that every checked physical address has.
pub const PAGE_SIZE: usize = 4096;

/// The largest multiple of `align` that is at most `a`.
pub open spec fn align_down_of(a: int, align: int) -> int {
    a - a % align
}

/// The smallest multiple of `align` that is at least `a`.
pub open spec fn align_up_of(a: int, align: int) -> int {
    if a % align == 0 {
        a
    } else {
        a - a % align + align
    }
}

pub open spec fn aligned_to(a: int, align: int) -> bool {
    a % align == 0
}

/// A physical memory address.
#[derive(Clone, Copy, PartialEq, Eq, PartialOrd, Ord, Debug)]
pub struct PhysAddr(pub usize);

impl PhysAddr {
    /// A page-aligned physical address; an address off a page boundary is a
    /// caller error.
    pub fn new(addr: usize) -> (r: PhysAddr)
        requires
            aligned_to(addr as int, PAGE_SIZE as int),
        ensures
            r.0 == addr,
            aligned_to(r.0 as int, PAGE_SIZE as int),
    {
        PhysAddr(addr)
    }

    /// The page-aligned physical address `addr`, or `None` when `addr` fails
    /// the alignment check.
    pub fn try_new(addr: usize) -> (r: Option<PhysAddr>)
        ensures
            r is None <==> !aligned_to(addr as int, PAGE_SIZE as int),
            r matches Some(p) ==> p.0 == addr,
    {
        if addr % PAGE_SIZE == 0 {
            Some(PhysAddr::new(addr))
        } else {
            None
        }
    }

    /// A physical address whose alignment the caller vouches for: no check is made.
    pub fn new_const(addr: usize) -> (r: PhysAddr)
        ensures
            r.0 == addr,
    {
        PhysAddr(addr)
    }

    pub fn as_u64(&self) -> (r: u64)
        ensures
            r as int == self.0 as int,
    {
        self.0 as u64
    }

    pub fn align_up(&self, align: usize) -> (r: PhysAddr)
        requires
            align > 0,
            align_up_of(self.0 as int, align as int) <= usize::MAX,
        ensures
            r.0 as int == align_up_of(self.0 as int, align as int),
    {
        PhysAddr(round_up(self.0, align))
    }

    pub fn align_down(&self, align: usize) -> (r: PhysAddr)
        requires
            align > 0,
        ensures
            r.0 as int == align_down_of(self.0 as int, align as int),
    {
        proof {
            lemma_rem_bounds(self.0 as int, align as int);
        }
        PhysAddr(self.0 - self.0 % align)
    }

    pub fn is_aligned(&self, align: usize) -> (r: bool)
        requires
            align > 0,
        ensures
            r == aligned_to(self.0 as int, align as int),
    {
        self.0 % align == 0
    }
}

/// A virtual memory address.
#[derive(Clone, Copy, PartialEq, Eq, PartialOrd, Ord, Debug)]
pub struct VirtAddr(pub usize);

impl VirtAddr {
    pub fn new(addr: usize) -> (r: VirtAddr)
        ensures
            r.0 == addr,
    {
        VirtAddr(addr)
    }

    pub fn as_usize(&self) -> (r: usize)
        ensures
            r == self.0,
    {
        self.0
    }

    pub fn as_u64(&self) -> (r: u64)
        ensures
            r as int == self.0 as int,
    {
        self.0 as u64
    }

    pub fn align_up(&self, align: usize) -> (r: VirtAddr)
        requires
            align > 0,
            align_up_of(self.0 as int, align as int) <= usize::MAX,
        ensures
            r.0 as int == align_up_of(self.0 as int, align as int),
    {
        VirtAddr(round_up(self.0, align))
    }

    pub fn align_down(&self, align: usize) -> (r: VirtAddr)
        requires
            align > 0,
        ensures
            r.0 as int == align_down_of(self.0 as int, align as int),
    {
        proof {
            lemma_rem_bounds(self.0 as int, align as int);
        }
        VirtAddr(self.0 - self.0 % align)
    }

    pub fn is_aligned(&self, align: usize) -> (r: bool)
        requires
            align > 0,
        ensures
            r == aligned_to(self.0 as int, align as int),
    {
        self.0 % align == 0
    }

    /// Whether the address may be read as a value of type `T`: it is not null and
    /// is aligned to `T`'s natural alignment.
    pub fn read_ok<T: Sized>(&self) -> (r: bool)
        ensures
            r == (self.0 != 0 && aligned_to(self.0 as int, vstd::layout::align_of::<T>() as int)),
    {
        let align = core::mem::align_of::<T>();
        proof {
            broadcast use vstd::layout::align_nonzero;
        }
        self.0 != 0 && self.0 % align == 0
    }

    pub fn offset(&self, offset: usize) -> (r: VirtAddr)
        requires
            self.0 + offset <= usize::MAX,
        ensures
            r.0 == self.0 + offset,
    {
        VirtAddr(self.0 + offset)
    }
}

fn round_up(a: usize, align: usize) -> (r: usize)
    requires
        align > 0,
        align_up_of(a as int, align as int) <= usize::MAX,
    ensures
        r as int == align_up_of(a as int, align as int),
{
    let rem = a % align;
    proof {
        lemma_rem_bounds(a as int, align as int);
    }
    if rem == 0 {
        a
    } else {
        a - rem + align
    }
}

proof fn lemma_rem_bounds(a: int, n: int)
    requires
        a >= 0,
        n > 0,
    ensures
        0 <= a % n < n,
        a % n <= a,
{
    vstd::arithmetic::div_mod::lemma_mod_pos_bound(a, n);
    if a < n {
        vstd::arithmetic::div_mod::lemma_small_mod(a as nat, n as nat);
    }
}

/// `align_down_of(a, n)` is `n` times the quotient of `a` by `n`.
proof fn lemma_align_down_is_multiple(a: int, n: int)
    requires
        a >= 0,
        n > 0,
    ensures
        align_down_of(a, n) == n * (a / n),
        aligned_to(align_down_of(a, n), n),
{
    vstd::arithmetic::div_mod::lemma_fundamental_div_mod(a, n);
    vstd::arithmetic::div_mod::lemma_mod_multiples_basic(a / n, n);
    assert(n * (a / n) == (a / n) * n) by (nonlinear_arith);
}

/// Rounding up an address that was rounded down to a boundary gives it back
/// unchanged: an aligned address is its own upward rounding.
pub proof fn lemma_align_up_of_align_down(a: int, n: int)
    requires
        a >= 0,
        n > 0,
    ensures
        align_up_of(align_down_of(a, n), n) == align_down_of(a, n),
        align_down_of(a, n) <= a,
{
    lemma_rem_bounds(a, n);
    lemma_align_down_is_multiple(a, n);
}

/// Rounding down never goes above an address and rounding up never below it,
/// and both roundings land on the boundary.
pub proof fn lemma_align_bounds(a: int, n: int)
    requires
        a >= 0,
        n > 0,
    ensures
        align_down_of(a, n) <= a <= align_up_of(a, n),
        aligned_to(align_down_of(a, n), n),
        aligned_to(align_up_of(a, n), n),
{
    lemma_rem_bounds(a, n);
    lemma_align_down_is_multiple(a, n);
    if a % n != 0 {
        assert(n * (a / n) + n == (a / n + 1) * n) by (nonlinear_arith);
        vstd::arithmetic::div_mod::lemma_mod_multiples_basic(a / n + 1, n);
    }
}

} // verus!
