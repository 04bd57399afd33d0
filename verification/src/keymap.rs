//! The keymap: the grid of actions the firmware serves and mutates.
//!
//! The grid is stored flattened, layer-major then row-major, which is also
//! the index space the bulk buffer endpoints address. Dimensions are fixed
//! at construction; every accessor preserves them.

use vstd::arithmetic::div_mod::{
    lemma_div_pos_is_pos, lemma_fundamental_div_mod, lemma_mod_division_less_than_divisor,
    lemma_multiply_divide_lt,
};
use vstd::arithmetic::mul::lemma_mul_is_commutative;
use vstd::prelude::*;

use crate::types::{Action, KeyPosition};

verus! {

/// Bounds on the flattened index arithmetic: with byte-sized dimensions the
/// flat index of an in-range cell stays below the capacity, and every partial
/// product stays far below the machine word.
proof fn lemma_flat_parts_bound(layer: int, row: int, col: int, r: int, c: int, l: int)
    by (nonlinear_arith)
    requires
        0 <= layer < l,
        0 <= row < r,
        0 <= col < c,
        r <= 255,
        c <= 255,
        l <= 255,
    ensures
        0 <= r * c <= 65025,
        0 <= layer * (r * c) <= 254 * 65025,
        0 <= row * c <= 65025,
        0 <= layer * (r * c) + row * c + col < r * c * l,
        r * c * l <= 16581375,
{
}

/// The capacity product of byte-sized dimensions stays far below the
/// machine word.
proof fn lemma_capacity_bound(r: int, c: int, l: int)
    by (nonlinear_arith)
    requires
        0 <= r <= 255,
        0 <= c <= 255,
        0 <= l <= 255,
    ensures
        0 <= r * c <= 65025,
        0 <= r * c * l <= 16581375,
{
}

/// The keymap grid. Constructed once at boot and mutated in place through
/// the handlers; never replaced.
pub struct KeyMap {
    rows: u8,
    cols: u8,
    layers: u8,
    actions: Vec<Action>,
}

impl KeyMap {
    /// Number of matrix rows.
    pub closed spec fn spec_rows(self) -> u8 {
        self.rows
    }

    /// Number of matrix columns.
    pub closed spec fn spec_cols(self) -> u8 {
        self.cols
    }

    /// Number of layers.
    pub closed spec fn spec_layers(self) -> u8 {
        self.layers
    }

    /// The flattened grid, layer-major then row-major.
    pub closed spec fn spec_actions(self) -> Seq<Action> {
        self.actions@
    }

    /// Size of the flattened index space: one slot per (layer, row, col).
    pub open spec fn spec_capacity(self) -> int {
        self.spec_rows() * self.spec_cols() * self.spec_layers()
    }

    /// The grid holds exactly one action per cell.
    pub open spec fn wf(self) -> bool {
        self.spec_actions().len() == self.spec_capacity()
    }

    /// A position addresses a real cell.
    pub open spec fn spec_valid_pos(self, pos: KeyPosition) -> bool {
        pos.row < self.spec_rows() && pos.col < self.spec_cols() && pos.layer < self.spec_layers()
    }

    /// Where a position lands in the flattened index space.
    pub open spec fn spec_flat_index(self, pos: KeyPosition) -> int {
        pos.layer * (self.spec_rows() * self.spec_cols()) + pos.row * self.spec_cols() + pos.col
    }

    /// The action at a valid position.
    pub open spec fn spec_action_at(self, pos: KeyPosition) -> Action {
        self.spec_actions()[self.spec_flat_index(pos)]
    }

    /// The cell a flat index addresses: the inverse of `spec_flat_index` on
    /// in-range indices.
    pub open spec fn spec_unflatten(self, idx: int) -> KeyPosition {
        let rc = self.spec_rows() as int * self.spec_cols() as int;
        let c = self.spec_cols() as int;
        KeyPosition {
            layer: (idx / rc) as u8,
            row: ((idx % rc) / c) as u8,
            col: ((idx % rc) % c) as u8,
        }
    }

    /// On an in-range flat index, unflattening yields a valid position whose
    /// flat index is the one unflattened: the two index views of the grid
    /// agree.
    pub proof fn lemma_unflatten_inverse(self, idx: int)
        requires
            0 <= idx < self.spec_capacity(),
        ensures
            self.spec_valid_pos(self.spec_unflatten(idx)),
            self.spec_flat_index(self.spec_unflatten(idx)) == idx,
            self.spec_rows() as int * self.spec_cols() as int > 0,
            self.spec_cols() as int > 0,
            0 <= idx / (self.spec_rows() as int * self.spec_cols() as int)
                < self.spec_layers() as int,
            0 <= (idx % (self.spec_rows() as int * self.spec_cols() as int)) / (
            self.spec_cols() as int) < self.spec_rows() as int,
            0 <= (idx % (self.spec_rows() as int * self.spec_cols() as int)) % (
            self.spec_cols() as int) < self.spec_cols() as int,
    {
        let r = self.spec_rows() as int;
        let c = self.spec_cols() as int;
        let l = self.spec_layers() as int;
        let rc = r * c;
        assert(r > 0 && c > 0 && l > 0 && rc > 0) by (nonlinear_arith)
            requires
                r >= 0,
                c >= 0,
                l >= 0,
                0 <= idx < r * c * l,
                rc == r * c,
        ;
        lemma_multiply_divide_lt(idx, rc, l);
        assert(rc * l == r * c * l);
        lemma_div_pos_is_pos(idx, rc);
        let rem = idx % rc;
        lemma_mod_division_less_than_divisor(idx, rc);
        assert(c * r == rc) by (nonlinear_arith)
            requires
                rc == r * c,
        ;
        lemma_multiply_divide_lt(rem, c, r);
        lemma_div_pos_is_pos(rem, c);
        lemma_mod_division_less_than_divisor(rem, c);
        let layer = idx / rc;
        let row = rem / c;
        let col = rem % c;
        assert(layer < 256 && row < 256 && col < 256);
        lemma_fundamental_div_mod(idx, rc);
        lemma_fundamental_div_mod(rem, c);
        lemma_mul_is_commutative(rc, layer);
        lemma_mul_is_commutative(c, row);
    }

    /// A valid position's flat index lies inside the flattened space.
    pub proof fn lemma_flat_index_in_range(self, pos: KeyPosition)
        requires
            self.spec_valid_pos(pos),
        ensures
            0 <= self.spec_flat_index(pos) < self.spec_capacity(),
    {
        lemma_flat_parts_bound(
            pos.layer as int,
            pos.row as int,
            pos.col as int,
            self.spec_rows() as int,
            self.spec_cols() as int,
            self.spec_layers() as int,
        );
    }

    /// Two valid positions collide in the flattened space only when they are
    /// the same position.
    pub proof fn lemma_flat_index_injective(self, a: KeyPosition, b: KeyPosition)
        requires
            self.spec_valid_pos(a),
            self.spec_valid_pos(b),
            self.spec_flat_index(a) == self.spec_flat_index(b),
        ensures
            a == b,
    {
        let r = self.spec_rows() as int;
        let c = self.spec_cols() as int;
        assert(a.layer == b.layer && a.row == b.row && a.col == b.col) by (nonlinear_arith)
            requires
                0 <= a.row < r,
                0 <= a.col < c,
                0 <= b.row < r,
                0 <= b.col < c,
                0 <= a.layer,
                0 <= b.layer,
                a.layer * (r * c) + a.row * c + a.col == b.layer * (r * c) + b.row * c + b.col,
        ;
    }

    /// Builds a keymap of the given dimensions with every key unassigned.
    pub fn new(rows: u8, cols: u8, layers: u8) -> (km: KeyMap)
        ensures
            km.wf(),
            km.spec_rows() == rows,
            km.spec_cols() == cols,
            km.spec_layers() == layers,
            forall|i: int|
                0 <= i < km.spec_actions().len() ==> km.spec_actions()[i] == Action::No,
    {
        proof {
            lemma_capacity_bound(rows as int, cols as int, layers as int);
        }
        let total: usize = rows as usize * cols as usize * layers as usize;
        let mut actions: Vec<Action> = Vec::new();
        let mut i: usize = 0;
        while i < total
            invariant
                actions@.len() == i,
                i <= total,
                forall|j: int| 0 <= j < i ==> actions@[j] == Action::No,
            decreases total - i,
        {
            actions.push(Action::No);
            i = i + 1;
        }
        KeyMap { rows, cols, layers, actions }
    }

    /// Reports the configured dimensions as (rows, cols, layers).
    pub fn get_keymap_config(&self) -> (dims: (u8, u8, u8))
        ensures
            dims == (self.spec_rows(), self.spec_cols(), self.spec_layers()),
    {
        (self.rows, self.cols, self.layers)
    }

    /// Total number of cells, the bound of the flattened index space.
    pub fn capacity(&self) -> (n: usize)
        ensures
            n == self.spec_capacity(),
    {
        proof {
            lemma_capacity_bound(self.rows as int, self.cols as int, self.layers as int);
        }
        self.rows as usize * self.cols as usize * self.layers as usize
    }

    /// Reads the action at a valid position.
    pub fn get_action_at(&self, pos: KeyPosition) -> (a: Action)
        requires
            self.wf(),
            self.spec_valid_pos(pos),
        ensures
            a == self.spec_action_at(pos),
    {
        proof {
            lemma_flat_parts_bound(
                pos.layer as int,
                pos.row as int,
                pos.col as int,
                self.rows as int,
                self.cols as int,
                self.layers as int,
            );
        }
        let idx: usize = pos.layer as usize * (self.rows as usize * self.cols as usize)
            + pos.row as usize * self.cols as usize + pos.col as usize;
        self.actions[idx]
    }

    /// Writes the action at a valid position, touching nothing else.
    pub fn set_action_at(&mut self, pos: KeyPosition, action: Action)
        requires
            old(self).wf(),
            old(self).spec_valid_pos(pos),
        ensures
            final(self).wf(),
            final(self).spec_rows() == old(self).spec_rows(),
            final(self).spec_cols() == old(self).spec_cols(),
            final(self).spec_layers() == old(self).spec_layers(),
            final(self).spec_actions() == old(self).spec_actions().update(
                old(self).spec_flat_index(pos),
                action,
            ),
            final(self).spec_action_at(pos) == action,
    {
        proof {
            lemma_flat_parts_bound(
                pos.layer as int,
                pos.row as int,
                pos.col as int,
                self.rows as int,
                self.cols as int,
                self.layers as int,
            );
        }
        let idx: usize = pos.layer as usize * (self.rows as usize * self.cols as usize)
            + pos.row as usize * self.cols as usize + pos.col as usize;
        self.actions[idx] = action;
    }

    /// Recovers the (layer, row, col) cell behind an in-range flat index.
    pub fn unflatten(&self, idx: usize) -> (pos: KeyPosition)
        requires
            self.wf(),
            idx < self.spec_capacity(),
        ensures
            pos == self.spec_unflatten(idx as int),
            self.spec_valid_pos(pos),
            self.spec_flat_index(pos) == idx,
    {
        proof {
            self.lemma_unflatten_inverse(idx as int);
            lemma_capacity_bound(self.rows as int, self.cols as int, self.layers as int);
        }
        let rc: usize = self.rows as usize * self.cols as usize;
        let rem: usize = idx % rc;
        KeyPosition { layer: (idx / rc) as u8, row: (rem / self.cols as usize) as u8, col: (rem
            % self.cols as usize) as u8 }
    }

    /// Reads the cell at a flat index, as the bulk endpoints address it.
    pub fn get_action_flat(&self, idx: usize) -> (a: Action)
        requires
            self.wf(),
            idx < self.spec_capacity(),
        ensures
            a == self.spec_actions()[idx as int],
    {
        self.actions[idx]
    }

    /// Writes the cell at a flat index, touching nothing else.
    pub fn set_action_flat(&mut self, idx: usize, action: Action)
        requires
            old(self).wf(),
            idx < old(self).spec_capacity(),
        ensures
            final(self).wf(),
            final(self).spec_rows() == old(self).spec_rows(),
            final(self).spec_cols() == old(self).spec_cols(),
            final(self).spec_layers() == old(self).spec_layers(),
            final(self).spec_actions() == old(self).spec_actions().update(idx as int, action),
    {
        self.actions[idx] = action;
    }
}

} // verus!
