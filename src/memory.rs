use vstd::prelude::*;

verus! {

/// Number of bytes in one page; also the number of pages.
pub const PAGE_SIZE: usize = 256;

/// Position of byte `offset` of page `page` in the flat cell sequence.
pub open spec fn cell_index(page: u8, offset: u8) -> int {
    page as int * 256 + offset as int
}

/// 256 pages of 256 bytes; one page is active and all loads and stores go to it.
pub struct DataMemory {
    cells: Vec<u8>,
    active: u8,
}

/// All cells and the active page.
pub struct MemoryView {
    pub cells: Seq<u8>,
    pub active: u8,
}

impl View for DataMemory {
    type V = MemoryView;

    closed spec fn view(&self) -> MemoryView {
        MemoryView { cells: self.cells@, active: self.active }
    }
}

impl DataMemory {
    pub open spec fn wf(&self) -> bool {
        self@.cells.len() == 65536
    }

    /// All cells zero, page 0 active.
    pub fn new() -> (m: DataMemory)
        ensures
            m.wf(),
            m@.active == 0,
            forall|i: int| 0 <= i < 65536 ==> #[trigger] m@.cells[i] == 0,
    {
        let mut cells: Vec<u8> = Vec::new();
        let mut k: usize = 0;
        while k < 65536
            invariant
                k <= 65536,
                cells@.len() == k,
                forall|i: int| 0 <= i < k ==> #[trigger] cells@[i] == 0,
            decreases 65536 - k,
        {
            cells.push(0);
            k = k + 1;
        }
        DataMemory { cells, active: 0 }
    }

    /// The active page.
    pub fn active_page(&self) -> (r: u8)
        ensures
            r == self@.active,
    {
        self.active
    }

    /// Makes `page` the active page.
    pub fn select_page(&mut self, page: u8)
        requires
            old(self).wf(),
        ensures
            final(self).wf(),
            final(self)@.cells == old(self)@.cells,
            final(self)@.active == page,
    {
        self.active = page;
    }

    /// Byte `offset` of page `page`.
    pub fn load_from(&self, page: u8, offset: u8) -> (r: u8)
        requires
            self.wf(),
        ensures
            r == self@.cells[cell_index(page, offset)],
    {
        self.cells[page as usize * PAGE_SIZE + offset as usize]
    }

    /// Byte `offset` of the active page.
    pub fn load(&self, offset: u8) -> (r: u8)
        requires
            self.wf(),
        ensures
            r == self@.cells[cell_index(self@.active, offset)],
    {
        self.load_from(self.active, offset)
    }

    /// Sets byte `offset` of the active page to `v`.
    pub fn store(&mut self, offset: u8, v: u8)
        requires
            old(self).wf(),
        ensures
            final(self).wf(),
            final(self)@.active == old(self)@.active,
            final(self)@.cells == old(self)@.cells.update(cell_index(old(self)@.active, offset), v),
    {
        let i = self.active as usize * PAGE_SIZE + offset as usize;
        self.cells.set(i, v);
    }

    /// A copy of the 256 bytes of page `page`.
    pub fn page(&self, page: u8) -> (r: Vec<u8>)
        requires
            self.wf(),
        ensures
            r@.len() == 256,
            forall|o: int| 0 <= o < 256 ==> #[trigger] r@[o] == self@.cells[page as int * 256 + o],
    {
        let mut r: Vec<u8> = Vec::new();
        let mut o: usize = 0;
        while o < PAGE_SIZE
            invariant
                self.wf(),
                o <= 256,
                r@.len() == o,
                forall|k: int| 0 <= k < o ==> #[trigger] r@[k] == self@.cells[page as int * 256 + k],
            decreases 256 - o,
        {
            r.push(self.cells[page as usize * PAGE_SIZE + o]);
            o = o + 1;
        }
        r
    }
}

/// Distinct (page, offset) pairs name distinct cells, so a store through one
/// page is never seen through another.
pub proof fn pages_are_disjoint(cells: Seq<u8>, p: u8, o: u8, q: u8, k: u8, v: u8)
    requires
        cells.len() == 65536,
        p != q,
    ensures
        cells.update(cell_index(p, o), v)[cell_index(q, k)] == cells[cell_index(q, k)],
{
}

} // verus!
