//! The apple: a single grid cell the snake is steered towards.

use vstd::prelude::*;
use vstd::arithmetic::div_mod::{lemma_fundamental_div_mod, lemma_fundamental_div_mod_converse};
use vstd::seq_lib::seq_to_set_is_finite;
use vstd::set_lib::{lemma_int_range, lemma_len_subset, set_int_range};

use crate::magic_numbers::{CELL_COLS, CELL_ROWS, GRID_AREA};
use crate::rng::random_below;
use crate::snake::{contains_position, Ordinance, Snake};

verus! {

/// The grid cell with row-major index `j`: the grid's cells enumerated
/// row by row.
pub open spec fn cell_of(j: int) -> Ordinance {
    Ordinance {
        parent_abs_pos_left: (j % (CELL_COLS as int)) as i8,
        parent_abs_pos_top: (j / (CELL_COLS as int)) as i8,
    }
}

/// The row-major index of a grid cell.
pub open spec fn cell_index(p: Ordinance) -> int {
    p.parent_abs_pos_top * (CELL_COLS as int) + p.parent_abs_pos_left
}

/// Every row-major index below the grid area denotes an in-bounds cell,
/// and indexing is left inverse to enumeration.
pub proof fn lemma_cell_of_wf(j: int)
    requires
        0 <= j < GRID_AREA,
    ensures
        cell_of(j).wf(),
        cell_index(cell_of(j)) == j,
{
    lemma_fundamental_div_mod(j, CELL_COLS as int);
}

/// Every in-bounds cell has a row-major index below the grid area, and
/// enumeration is left inverse to indexing.
pub proof fn lemma_cell_index_inverse(p: Ordinance)
    requires
        p.wf(),
    ensures
        0 <= cell_index(p) < GRID_AREA,
        cell_of(cell_index(p)) == p,
{
    lemma_fundamental_div_mod_converse(
        cell_index(p),
        CELL_COLS as int,
        p.parent_abs_pos_top as int,
        p.parent_abs_pos_left as int,
    );
}

/// Pigeonhole for the grid: a body with fewer segments than the grid has
/// cells leaves at least one in-bounds cell free.
pub proof fn lemma_free_cell_exists(body: Seq<Ordinance>)
    requires
        body.len() < GRID_AREA,
    ensures
        exists|p: Ordinance| p.wf() && !body.contains(p),
{
    if forall|p: Ordinance| p.wf() ==> #[trigger] body.contains(p) {
        let idxs = body.map_values(|p: Ordinance| cell_index(p));
        assert forall|j: int| 0 <= j < GRID_AREA implies #[trigger] idxs.to_set().contains(j) by {
            lemma_cell_of_wf(j);
            assert(body.contains(cell_of(j)));
            let k = choose|k: int| 0 <= k < body.len() && body[k] == cell_of(j);
            assert(idxs[k] == j);
        }
        assert(set_int_range(0, GRID_AREA as int).subset_of(idxs.to_set()));
        lemma_int_range(0, GRID_AREA as int);
        seq_to_set_is_finite(idxs);
        lemma_len_subset(set_int_range(0, GRID_AREA as int), idxs.to_set());
        idxs.lemma_cardinality_of_set();
        assert(false);
    }
}

/// Number of random placements tried before falling back to a scan for
/// the first free cell.
const PLACEMENT_RETRIES: u8 = 32;

/// The apple's position on the grid. Always in bounds, and placed on a
/// cell free of the snake's body at spawn time.
#[derive(Clone, Copy, Debug)]
pub struct Apple(pub Ordinance);

impl Apple {
    /// Places a new apple on an in-bounds cell that no segment of the
    /// snake's body occupies. Uniformly random cells are drawn first; if
    /// an unlucky streak keeps hitting the body, the grid is scanned in
    /// row-major order for a free cell, which the precondition (the body
    /// covers less than the whole grid) guarantees to exist.
    pub fn new(snake: Option<&Snake>) -> (a: Apple)
        requires
            snake matches Some(s) ==> s.wf() && s.body@.len() < GRID_AREA,
        ensures
            a.0.wf(),
            snake matches Some(s) ==> !s.body@.contains(a.0),
    {
        let empty: Vec<Ordinance> = Vec::new();
        let body: &Vec<Ordinance> = match snake {
            Some(s) => &s.body,
            None => &empty,
        };

        let mut tries: u8 = 0;
        while tries < PLACEMENT_RETRIES
            invariant
                snake matches Some(s) ==> body@ == s.body@,
                body@.len() < GRID_AREA,
            decreases PLACEMENT_RETRIES as int - tries,
        {
            let left = random_below(CELL_COLS);
            let top = random_below(CELL_ROWS);
            let candidate = Ordinance { parent_abs_pos_left: left, parent_abs_pos_top: top };
            if !contains_position(body, &candidate) {
                return Apple(candidate);
            }
            tries += 1;
        }

        let mut i: u16 = 0;
        while i < GRID_AREA
            invariant
                0 <= i <= GRID_AREA,
                forall|j: int| 0 <= j < i ==> body@.contains(cell_of(j)),
                snake matches Some(s) ==> body@ == s.body@,
                body@.len() < GRID_AREA,
            decreases GRID_AREA as int - i,
        {
            let candidate = Ordinance {
                parent_abs_pos_left: (i % (CELL_COLS as u16)) as i8,
                parent_abs_pos_top: (i / (CELL_COLS as u16)) as i8,
            };
            proof {
                lemma_cell_of_wf(i as int);
                assert(candidate == cell_of(i as int));
            }
            if !contains_position(body, &candidate) {
                return Apple(candidate);
            }
            i += 1;
        }

        proof {
            lemma_free_cell_exists(body@);
            let p = choose|p: Ordinance| p.wf() && !body@.contains(p);
            lemma_cell_index_inverse(p);
            assert(body@.contains(cell_of(cell_index(p))));
            assert(false);
        }
        Apple(Ordinance { parent_abs_pos_left: 0, parent_abs_pos_top: 0 })
    }

    /// Column of the apple's cell.
    pub fn left(&self) -> (r: i8)
        ensures
            r == self.0.parent_abs_pos_left,
    {
        self.0.parent_abs_pos_left
    }

    /// Row of the apple's cell.
    pub fn top(&self) -> (r: i8)
        ensures
            r == self.0.parent_abs_pos_top,
    {
        self.0.parent_abs_pos_top
    }
}

} // verus!
