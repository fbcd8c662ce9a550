use crate::generator::{fallback_marker, generate_cell, generated_cell, lookup_views};
use vstd::prelude::*;

verus! {

/// Where the text of a cell came from.
#[derive(Debug, Clone, Copy, PartialEq, Eq, Structural)]
pub enum CellOrigin {
    /// Written by the human player (or still empty, waiting for them).
    HumanEntered,
    /// A word that the word source produced.
    GeneratedSuccess,
    /// The fallback marker, put in place of a failed lookup.
    GeneratedFallback,
}

/// One answer: a player's word for one category in one turn.
#[derive(Debug, Clone, PartialEq, Eq)]
pub struct Cell {
    pub value: String,
    pub origin: CellOrigin,
}

pub struct CellModel {
    pub value: Seq<char>,
    pub origin: CellOrigin,
}

impl View for Cell {
    type V = CellModel;

    open spec fn view(&self) -> CellModel {
        CellModel { value: self.value@, origin: self.origin }
    }
}

/// Why a grid refused an access.
#[derive(Debug, Clone, Copy, PartialEq, Eq, Structural)]
pub enum GridError {
    /// The coordinate lies off the board.
    OutOfRange,
    /// No game runs, so there is no board.
    NoGame,
}

/// The board as a flat sequence of cells: player by player, within a player
/// turn by turn, within a turn category by category. Player 0 is the human.
pub struct GridModel {
    pub players: nat,
    pub turns: nat,
    pub categories: nat,
    pub cells: Seq<CellModel>,
}

pub open spec fn cell_total(players: nat, turns: nat, categories: nat) -> nat {
    players * turns * categories
}

/// How many lookups fill the simulated players' cells.
pub open spec fn lookup_total(players: nat, turns: nat, categories: nat) -> nat {
    (players - 1) as nat * turns * categories
}

pub open spec fn empty_human_cell() -> CellModel {
    CellModel { value: Seq::empty(), origin: CellOrigin::HumanEntered }
}

impl GridModel {
    pub open spec fn wf(self) -> bool {
        &&& self.players >= 1
        &&& self.cells.len() == cell_total(self.players, self.turns, self.categories)
        &&& self.cells.len() <= usize::MAX
    }

    pub open spec fn in_range(self, p: int, t: int, c: int) -> bool {
        &&& 0 <= p < self.players
        &&& 0 <= t < self.turns
        &&& 0 <= c < self.categories
    }

    pub open spec fn index(self, p: int, t: int, c: int) -> int {
        (p * self.turns + t) * self.categories + c
    }

    /// The cell at a coordinate, or `None` where the coordinate is off the board.
    pub open spec fn cell(self, p: int, t: int, c: int) -> Option<CellModel> {
        if self.in_range(p, t, c) {
            Some(self.cells[self.index(p, t, c)])
        } else {
            None
        }
    }

    /// The board after the human writes `text` at `(t, c)`; unchanged where
    /// that coordinate is off the board.
    pub open spec fn with_human_value(self, t: int, c: int, text: Seq<char>) -> GridModel {
        if self.in_range(0, t, c) {
            GridModel {
                cells: self.cells.update(
                    self.index(0, t, c),
                    CellModel { value: text, origin: CellOrigin::HumanEntered },
                ),
                ..self
            }
        } else {
            self
        }
    }
}

/// The board at the start of a game: the human's cells empty, and the cells
/// of the simulated players made from the lookups, in board order.
pub open spec fn initial_grid(
    players: nat,
    turns: nat,
    categories: nat,
    lookups: Seq<Option<Seq<char>>>,
) -> GridModel {
    GridModel {
        players,
        turns,
        categories,
        cells: Seq::new(
            cell_total(players, turns, categories),
            |i: int|
                if i < turns * categories {
                    empty_human_cell()
                } else {
                    generated_cell(lookups[i - turns * categories])
                },
        ),
    }
}

/// A coordinate on the board lies inside the flat sequence.
pub proof fn lemma_index_bounds(g: GridModel, p: int, t: int, c: int)
    requires
        g.in_range(p, t, c),
    ensures
        0 <= p * g.turns <= p * g.turns + t <= g.index(p, t, c),
        g.index(p, t, c) < cell_total(g.players, g.turns, g.categories),
{
    let tt = g.turns as int;
    let cc = g.categories as int;
    let pp = g.players as int;
    assert(0 <= p * tt) by (nonlinear_arith)
        requires
            0 <= p,
            0 <= tt,
    ;
    assert(p * tt + t < pp * tt) by (nonlinear_arith)
        requires
            0 <= p < pp,
            0 <= t < tt,
    ;
    assert(p * tt + t <= (p * tt + t) * cc) by (nonlinear_arith)
        requires
            0 <= p * tt + t,
            1 <= cc,
    ;
    assert((p * tt + t) * cc + c < pp * tt * cc) by (nonlinear_arith)
        requires
            0 <= p * tt + t < pp * tt,
            0 <= c < cc,
    ;
}

/// The human's cells come first; the lookups fill the rest of the board.
pub proof fn lemma_totals(players: nat, turns: nat, categories: nat)
    requires
        players >= 1,
    ensures
        turns * categories <= cell_total(players, turns, categories),
        lookup_total(players, turns, categories) == cell_total(players, turns, categories) - turns
            * categories,
{
    assert(turns * categories <= players * turns * categories && (players - 1) * turns * categories
        == players * turns * categories - turns * categories) by (nonlinear_arith)
        requires
            players >= 1,
    ;
}

/// The size of a board, where it fits in a machine word.
pub fn checked_cell_total(players: usize, turns: usize, categories: usize) -> (r: Option<usize>)
    ensures
        r is Some <==> cell_total(players as nat, turns as nat, categories as nat) <= usize::MAX,
        r matches Some(n) ==> n == cell_total(players as nat, turns as nat, categories as nat),
{
    if turns == 0 || categories == 0 {
        assert(cell_total(players as nat, turns as nat, categories as nat) == 0) by (nonlinear_arith)
            requires
                turns == 0 || categories == 0,
        ;
        return Some(0);
    }
    match players.checked_mul(turns) {
        None => {
            assert(players * turns * categories > usize::MAX) by (nonlinear_arith)
                requires
                    players * turns > usize::MAX,
                    categories >= 1,
            ;
            None
        },
        Some(pt) => pt.checked_mul(categories),
    }
}

/// The game board: every cell of every player, turn and category.
pub struct Grid {
    player_count: usize,
    turn_count: usize,
    category_count: usize,
    cells: Vec<Cell>,
}

impl View for Grid {
    type V = GridModel;

    closed spec fn view(&self) -> GridModel {
        GridModel {
            players: self.player_count as nat,
            turns: self.turn_count as nat,
            categories: self.category_count as nat,
            cells: self.cells@.map_values(|c: Cell| c@),
        }
    }
}

impl Grid {
    /// Allocates the board in one go: the human's cells empty, each cell of a
    /// simulated player made by the generator from its lookup.
    pub fn initialize(
        player_count: usize,
        turn_count: usize,
        category_count: usize,
        lookups: &Vec<Option<String>>,
    ) -> (g: Grid)
        requires
            player_count >= 1,
            cell_total(player_count as nat, turn_count as nat, category_count as nat)
                <= usize::MAX,
            lookups@.len() == lookup_total(
                player_count as nat,
                turn_count as nat,
                category_count as nat,
            ),
        ensures
            g@.wf(),
            g@ == initial_grid(
                player_count as nat,
                turn_count as nat,
                category_count as nat,
                lookup_views(lookups@),
            ),
    {
        let ghost model = initial_grid(
            player_count as nat,
            turn_count as nat,
            category_count as nat,
            lookup_views(lookups@),
        );
        let total = match checked_cell_total(player_count, turn_count, category_count) {
            Some(n) => n,
            None => 0,
        };
        proof {
            lemma_totals(player_count as nat, turn_count as nat, category_count as nat);
        }
        let human = turn_count * category_count;
        let mut cells: Vec<Cell> = Vec::new();
        let mut k: usize = 0;
        while k < total
            invariant
                k <= total,
                total == cell_total(player_count as nat, turn_count as nat, category_count as nat),
                human == turn_count * category_count,
                human <= total,
                total - human == lookups@.len(),
                model.cells.len() == total,
                cells@.len() == k,
                model == initial_grid(
                    player_count as nat,
                    turn_count as nat,
                    category_count as nat,
                    lookup_views(lookups@),
                ),
                forall|j: int| 0 <= j < k ==> (#[trigger] cells@[j])@ == model.cells[j],
            decreases total - k,
        {
            if k < human {
                cells.push(Cell { value: String::new(), origin: CellOrigin::HumanEntered });
            } else {
                let cell = generate_cell(&lookups[k - human]);
                cells.push(cell);
            }
            k = k + 1;
        }
        let g = Grid { player_count, turn_count, category_count, cells };
        assert(g@.cells =~= model.cells);
        g
    }

    pub fn player_count(&self) -> (r: usize)
        ensures
            r == self@.players,
    {
        self.player_count
    }

    pub fn turn_count(&self) -> (r: usize)
        ensures
            r == self@.turns,
    {
        self.turn_count
    }

    pub fn category_count(&self) -> (r: usize)
        ensures
            r == self@.categories,
    {
        self.category_count
    }

    /// The number of cells on the board.
    pub fn cell_count(&self) -> (r: usize)
        requires
            self@.wf(),
        ensures
            r == self@.cells.len(),
    {
        self.cells.len()
    }

    /// The cell at `(player, turn, category)`; `None` off the board.
    pub fn get(&self, player: usize, turn: usize, category: usize) -> (r: Option<&Cell>)
        requires
            self@.wf(),
        ensures
            r is Some <==> self@.in_range(player as int, turn as int, category as int),
            r matches Some(x) ==> self@.cell(player as int, turn as int, category as int)
                == Some(x@),
    {
        if player < self.player_count && turn < self.turn_count && category
            < self.category_count {
            proof {
                lemma_index_bounds(self@, player as int, turn as int, category as int);
            }
            let i = (player * self.turn_count + turn) * self.category_count + category;
            Some(&self.cells[i])
        } else {
            None
        }
    }

    /// Writes the human player's answer at `(turn, category)`. Off the board
    /// the write is refused and nothing changes.
    pub fn set_human_value(&mut self, turn: usize, category: usize, text: String) -> (r: Result<
        (),
        GridError,
    >)
        requires
            old(self)@.wf(),
        ensures
            r is Ok <==> old(self)@.in_range(0, turn as int, category as int),
            r is Err ==> r == Err::<(), GridError>(GridError::OutOfRange),
            final(self)@ == old(self)@.with_human_value(turn as int, category as int, text@),
            final(self)@.wf(),
    {
        if turn < self.turn_count && category < self.category_count {
            proof {
                lemma_index_bounds(self@, 0, turn as int, category as int);
                assert(self@.index(0, turn as int, category as int) == turn * self.category_count
                    + category);
            }
            let i = turn * self.category_count + category;
            let ghost text_view = text@;
            self.cells.set(i, Cell { value: text, origin: CellOrigin::HumanEntered });
            assert(self@.cells =~= old(self)@.with_human_value(
                turn as int,
                category as int,
                text_view,
            ).cells);
            Ok(())
        } else {
            Err(GridError::OutOfRange)
        }
    }
}

} // verus!

verus! {

/// Cells of simulated players lie past the human's block.
pub proof fn lemma_simulated_index(g: GridModel, p: int, t: int, c: int)
    requires
        g.in_range(p, t, c),
        p >= 1,
    ensures
        g.index(p, t, c) >= g.turns * g.categories,
{
    let tt = g.turns as int;
    let cc = g.categories as int;
    assert((p * tt + t) * cc + c >= tt * cc) by (nonlinear_arith)
        requires
            p >= 1,
            tt >= 0,
            0 <= t,
            0 <= c,
            cc >= 0,
    ;
}

/// A failed lookup shows, in its own cell, as the fallback marker tagged as
/// such; every other cell of the batch is what it would have been had that
/// lookup given any other answer.
pub proof fn lemma_fallback_marking(
    players: nat,
    turns: nat,
    categories: nat,
    lookups: Seq<Option<Seq<char>>>,
    k: int,
    other: Option<Seq<char>>,
)
    requires
        players >= 1,
        lookups.len() == lookup_total(players, turns, categories),
        0 <= k < lookups.len(),
        lookups[k] is None,
    ensures
        ({
            let g = initial_grid(players, turns, categories, lookups);
            let h = initial_grid(players, turns, categories, lookups.update(k, other));
            &&& g.cells[turns * categories + k] == CellModel {
                value: fallback_marker(),
                origin: CellOrigin::GeneratedFallback,
            }
            &&& forall|j: int|
                0 <= j < g.cells.len() && j != turns * categories + k ==> #[trigger] g.cells[j]
                    == h.cells[j]
        }),
{
    lemma_totals(players, turns, categories);
}

} // verus!
