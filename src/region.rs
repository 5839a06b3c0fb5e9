//! Cross-core access to the shared RAM window.
//!
//! The security unit divides RAM into fixed-size cells, each with its own
//! permission flags. Before the peer core may touch the shared window, the
//! core with security authority opens every cell that the window overlaps
//! for reading and writing, unlocked. This module keeps that configuration
//! table; writing it to the hardware is the board layer's job.

use vstd::prelude::*;

verus! {

/// The permission flags of one cell.
#[derive(Debug, Clone, Copy, PartialEq, Eq, Structural)]
pub struct RegionPermissions {
    pub read: bool,
    pub write: bool,
    pub lock: bool,
}

/// The flags a granted cell ends with.
pub open spec fn shared_access() -> RegionPermissions {
    RegionPermissions { read: true, write: true, lock: false }
}

/// The flags of a cell nobody has opened.
pub open spec fn no_access() -> RegionPermissions {
    RegionPermissions { read: false, write: false, lock: false }
}

/// A rejected region request.
#[derive(Debug, Clone, Copy, PartialEq, Eq, Structural)]
pub enum RegionError {
    /// The cell size is zero, or the cells would run past the address space.
    InvalidLayout,
    /// The range asked for does not lie inside the cells.
    OutOfBounds,
}

/// The permission table of the RAM cells, starting at `base`, each
/// `cell_size` bytes long.
pub struct MemoryRegionGuard {
    base: u64,
    cell_size: u64,
    cells: Vec<RegionPermissions>,
}

impl MemoryRegionGuard {
    /// Address of the first cell.
    pub closed spec fn base(&self) -> nat {
        self.base as nat
    }

    /// Size in bytes of one cell.
    pub closed spec fn cell_size(&self) -> nat {
        self.cell_size as nat
    }

    /// The flags of each cell, lowest address first.
    pub closed spec fn cells(&self) -> Seq<RegionPermissions> {
        self.cells@
    }

    /// Address one past the last cell.
    pub open spec fn end(&self) -> nat {
        self.base() + self.cell_size() * self.cells().len()
    }

    /// First address of cell `i`.
    pub open spec fn cell_start(&self, i: int) -> int {
        self.base() + self.cell_size() * i
    }

    /// Whether cell `i` shares at least one byte with `[start, end)`.
    pub open spec fn overlaps(&self, i: int, start: nat, end: nat) -> bool {
        self.cell_start(i) < end && start < self.cell_start(i) + self.cell_size()
    }

    /// The flags after opening the cells that `[start, end)` overlaps.
    pub open spec fn cells_after_grant(&self, start: nat, end: nat) -> Seq<RegionPermissions> {
        Seq::new(
            self.cells().len(),
            |i: int|
                if self.overlaps(i, start, end) {
                    shared_access()
                } else {
                    self.cells()[i]
                },
        )
    }

    /// The layout is sound: cells are non-empty and addressable.
    pub open spec fn wf(&self) -> bool {
        self.cell_size() > 0 && self.end() <= u64::MAX
    }

    /// A table of `cell_count` cells of `cell_size` bytes from `base`, all
    /// closed to the peer.
    pub fn new(base: u64, cell_size: u64, cell_count: usize) -> (r: Result<
        MemoryRegionGuard,
        RegionError,
    >)
        ensures
            (cell_size > 0 && base + cell_size * cell_count <= u64::MAX) <==> r is Ok,
            r is Err ==> r == Err::<MemoryRegionGuard, RegionError>(RegionError::InvalidLayout),
            r is Ok ==> {
                let g = r->Ok_0;
                &&& g.wf()
                &&& g.base() == base
                &&& g.cell_size() == cell_size
                &&& g.cells().len() == cell_count
                &&& forall|i: int| 0 <= i < cell_count ==> g.cells()[i] == no_access()
            },
    {
        if cell_size == 0 {
            return Err(RegionError::InvalidLayout);
        }
        if cell_count as u128 > u64::MAX as u128 {
            proof {
                assert(cell_size * cell_count >= cell_count) by (nonlinear_arith)
                    requires cell_size > 0, cell_count >= 0;
            }
            return Err(RegionError::InvalidLayout);
        }
        let span: u64 = match cell_size.checked_mul(cell_count as u64) {
            Some(s) => s,
            None => {
                return Err(RegionError::InvalidLayout);
            },
        };
        if span > u64::MAX - base {
            return Err(RegionError::InvalidLayout);
        }
        let mut cells: Vec<RegionPermissions> = Vec::new();
        let mut i: usize = 0;
        while i < cell_count
            invariant
                i <= cell_count,
                cells@.len() == i,
                forall|j: int| 0 <= j < i ==> cells@[j] == no_access(),
            decreases cell_count - i,
        {
            cells.push(RegionPermissions { read: false, write: false, lock: false });
            i = i + 1;
        }
        Ok(MemoryRegionGuard { base, cell_size, cells })
    }

    /// Opens every cell that `[start, start + len)` overlaps for reading and
    /// writing, unlocked; other cells keep their flags. A range that does not
    /// lie inside the cells changes nothing.
    pub fn grant_shared_access(&mut self, start: u64, len: u64) -> (r: Result<(), RegionError>)
        requires
            old(self).wf(),
        ensures
            final(self).wf(),
            final(self).base() == old(self).base(),
            final(self).cell_size() == old(self).cell_size(),
            final(self).cells().len() == old(self).cells().len(),
            (old(self).base() <= start && start + len <= old(self).end()) <==> r is Ok,
            r is Err ==> r == Err::<(), RegionError>(RegionError::OutOfBounds)
                && *final(self) == *old(self),
            r is Ok ==> final(self).cells() == old(self).cells_after_grant(
                start as nat,
                (start + len) as nat,
            ),
    {
        if start < self.base || len > u64::MAX - start {
            return Err(RegionError::OutOfBounds);
        }
        let end: u64 = start + len;
        let n: usize = self.cells.len();
        proof {
            assert(self.cell_size * n >= 0) by (nonlinear_arith)
                requires self.cell_size > 0;
        }
        let top: u64 = self.base + self.cell_size * (n as u64);
        if end > top {
            return Err(RegionError::OutOfBounds);
        }
        let ghost old_cells = self.cells@;
        let mut i: usize = 0;
        let mut lo: u64 = self.base;
        while i < n
            invariant
                self.wf(),
                n == self.cells@.len(),
                old_cells.len() == n,
                i <= n,
                lo == self.base + self.cell_size * i,
                lo <= top,
                top == self.end(),
                self.base == old(self).base,
                self.cell_size == old(self).cell_size,
                old_cells == old(self).cells@,
                forall|j: int|
                    0 <= j < i ==> self.cells@[j] == if old(self).overlaps(
                        j,
                        start as nat,
                        end as nat,
                    ) {
                        shared_access()
                    } else {
                        old_cells[j]
                    },
                forall|j: int| i <= j < n ==> self.cells@[j] == old_cells[j],
            decreases n - i,
        {
            proof {
                assert(self.cell_size * (i + 1) <= self.cell_size * n) by (nonlinear_arith)
                    requires i + 1 <= n, self.cell_size > 0;
                assert(self.cell_size * (i + 1) == self.cell_size * i + self.cell_size)
                    by (nonlinear_arith);
            }
            let hi: u64 = lo + self.cell_size;
            assert(old(self).cell_start(i as int) == lo as int);
            assert(old(self).cell_start(i as int) + old(self).cell_size() == hi as int);
            if lo < end && start < hi {
                self.cells.set(i, RegionPermissions { read: true, write: true, lock: false });
            }
            lo = hi;
            i = i + 1;
        }
        assert(self.cells@ =~= old(self).cells_after_grant(start as nat, end as nat));
        Ok(())
    }

    /// The flags of cell `i`.
    pub fn cell(&self, i: usize) -> (r: RegionPermissions)
        requires
            i < self.cells().len(),
        ensures
            r == self.cells()[i as int],
    {
        self.cells[i]
    }

    /// The number of cells.
    pub fn cell_count(&self) -> (r: usize)
        ensures
            r == self.cells().len(),
    {
        self.cells.len()
    }
}

} // verus!
