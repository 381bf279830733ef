use vstd::prelude::*;

verus! {

/// Number of addressable one-byte cells.
pub const MAX_MEM: usize = 65536;

/// A flat 64 KiB address space; every 16-bit address names one byte.
pub struct Mem {
    data: [u8; MAX_MEM],
}

impl View for Mem {
    type V = Seq<u8>;

    closed spec fn view(&self) -> Seq<u8> {
        self.data@
    }
}

/// The contents of a freshly created or cleared memory: all cells zero.
pub open spec fn zeroed() -> Seq<u8> {
    Seq::new(MAX_MEM as nat, |i: int| 0u8)
}

/// A memory always holds exactly one cell per 16-bit address.
pub broadcast proof fn lemma_mem_len(m: Mem)
    ensures
        #[trigger] m@.len() == MAX_MEM,
{
}

impl Mem {
    /// A memory with every cell zero.
    pub fn new() -> (r: Mem)
        ensures
            r@ == zeroed(),
    {
        let r = Mem { data: [0u8; MAX_MEM] };
        assert(r@ =~= zeroed());
        r
    }

    /// Sets every cell to zero.
    pub fn clear(&mut self)
        ensures
            final(self)@ == zeroed(),
    {
        self.data = [0u8; MAX_MEM];
        assert(self@ =~= zeroed());
    }

    /// The byte at `address`.
    pub fn read(&self, address: u16) -> (r: u8)
        ensures
            r == self@[address as int],
    {
        self.data[address as usize]
    }

    /// Stores `value` at `address`, leaving every other cell as it was.
    pub fn write(&mut self, address: u16, value: u8)
        ensures
            final(self)@ == old(self)@.update(address as int, value),
    {
        self.data[address as usize] = value;
    }
}

impl core::ops::Index<u16> for Mem {
    type Output = u8;

    fn index(&self, address: u16) -> (r: &u8)
        ensures
            *r == self@[address as int],
    {
        &self.data[address as usize]
    }
}

impl vstd::std_specs::core::IndexSpecImpl<u16> for Mem {
    open spec fn index_req(&self, address: &u16) -> bool {
        true
    }
}

impl core::ops::IndexMut<u16> for Mem {
    fn index_mut(&mut self, address: u16) -> (r: &mut u8)
        ensures
            *r == old(self)@[address as int],
            final(self)@ == old(self)@.update(address as int, *final(r)),
    {
        &mut self.data[address as usize]
    }
}

} // verus!
