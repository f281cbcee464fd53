//! A rectangular grid of cells, addressed by position.

use vstd::prelude::*;

verus! {

/// What a grid is: its extent and its cells, in storage order.
pub struct GridView<T> {
    pub width: nat,
    pub height: nat,
    pub cells: Seq<T>,
}

/// A grid of `width` by `height` positions over a flat store of cells.
pub struct Grid<T> {
    width: usize,
    height: usize,
    cells: Vec<T>,
}

impl<T> View for Grid<T> {
    type V = GridView<T>;

    closed spec fn view(&self) -> GridView<T> {
        GridView { width: self.width as nat, height: self.height as nat, cells: self.cells@ }
    }
}

/// The position that a grid of the given extent gives to `index`: the
/// remainder by the width, and the quotient by the height.
pub open spec fn index_to_position_spec(index: nat, width: nat, height: nat) -> (nat, nat) {
    (index % width, index / height)
}

/// The index that a grid of the given height gives to `position`.
pub open spec fn position_to_index_spec(position: (nat, nat), height: nat) -> nat {
    position.0 * height + position.1
}

impl<T> Grid<T> {
    /// A grid of the given extent that holds no cell yet.
    pub fn new(width: usize, height: usize) -> (g: Self)
        ensures
            g@.width == width,
            g@.height == height,
            g@.cells == Seq::<T>::empty(),
    {
        Self { width, height, cells: Vec::new() }
    }

    /// The position of the cell stored at `index`.
    pub fn index_to_position(&self, index: usize) -> (r: (usize, usize))
        requires
            self@.width > 0,
            self@.height > 0,
        ensures
            (r.0 as nat, r.1 as nat) == index_to_position_spec(
                index as nat,
                self@.width,
                self@.height,
            ),
    {
        let x = index % self.width;
        let y = index / self.height;
        (x, y)
    }

    /// The index in the store of the cell at `position`.
    pub fn position_to_index(&self, position: (usize, usize)) -> (r: usize)
        requires
            position_to_index_spec((position.0 as nat, position.1 as nat), self@.height)
                <= usize::MAX,
        ensures
            r == position_to_index_spec((position.0 as nat, position.1 as nat), self@.height),
    {
        proof {
            assert(position.0 * self.height >= 0) by (nonlinear_arith);
        }
        position.0 * self.height + position.1
    }
}

impl<T> vstd::std_specs::core::IndexSpecImpl<(usize, usize)> for Grid<T> {
    /// The position names a cell that the grid holds.
    open spec fn index_req(&self, position: &(usize, usize)) -> bool {
        position_to_index_spec((position.0 as nat, position.1 as nat), self@.height)
            < self@.cells.len()
    }
}

impl<T> std::ops::Index<(usize, usize)> for Grid<T> {
    type Output = T;

    /// The cell at `position`.
    fn index(&self, position: (usize, usize)) -> (cell: &T)
        ensures
            *cell == self@.cells[position_to_index_spec(
                (position.0 as nat, position.1 as nat),
                self@.height,
            ) as int],
    {
        let held = self.cells.len();
        let index = self.position_to_index(position);
        &self.cells[index]
    }
}

impl<T> Grid<T> {
    /// The cell at `position`, to be changed in place. Nothing else in the
    /// grid changes.
    pub fn index_mut(&mut self, position: (usize, usize)) -> (cell: &mut T)
        requires
            position_to_index_spec((position.0 as nat, position.1 as nat), old(self)@.height)
                < old(self)@.cells.len(),
        ensures
            *cell == old(self)@.cells[position_to_index_spec(
                (position.0 as nat, position.1 as nat),
                old(self)@.height,
            ) as int],
            final(self)@ == (GridView {
                cells: old(self)@.cells.update(
                    position_to_index_spec(
                        (position.0 as nat, position.1 as nat),
                        old(self)@.height,
                    ) as int,
                    *final(cell),
                ),
                ..old(self)@
            }),
    {
        let held = self.cells.len();
        let index = self.position_to_index(position);
        &mut self.cells[index]
    }
}

} // verus!
