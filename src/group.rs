use vstd::prelude::*;

use crate::card::PlayerCard;
use crate::layout::{fits, in_order, placed, split, Extent, Region};

verus! {

/// The cards of one category of the squad (goalkeepers, defenders, ...),
/// in display and navigation order.
pub struct Players<A> {
    pub category: String,
    pub players: Vec<PlayerCard<A>>,
}

impl<A> Players<A> {
    pub fn new(category: String, players: Vec<PlayerCard<A>>) -> (r: Self)
        ensures
            r.category == category,
            r.players == players,
    {
        Players { category, players }
    }
}

/// The columns of a group's row and the column of its first card: an odd count
/// of up to five sits centred in five equal columns; any other count in six
/// columns whose outer two are half as wide.
pub open spec fn row_design(num_player: int) -> (Seq<Extent>, int) {
    if num_player == 1 || num_player == 3 || num_player == 5 {
        (
            seq![
                Extent::Percentage(20),
                Extent::Percentage(20),
                Extent::Percentage(20),
                Extent::Percentage(20),
                Extent::Percentage(20),
            ],
            if num_player == 5 {
                0
            } else if num_player == 3 {
                1
            } else {
                2
            },
        )
    } else {
        (
            seq![
                Extent::Percentage(10),
                Extent::Percentage(20),
                Extent::Percentage(20),
                Extent::Percentage(20),
                Extent::Percentage(20),
                Extent::Percentage(10),
            ],
            if num_player == 4 {
                1
            } else {
                2
            },
        )
    }
}

/// The region of each of `n` cards: the width and column of the columns from
/// `start` on, and the full height of `area`.
pub open spec fn card_regions_spec(area: Region, columns: Seq<Region>, start: int, n: int) -> Seq<Region> {
    Seq::new(
        n as nat,
        |i: int|
            Region { x: columns[start + i].x, y: area.y, width: columns[start + i].width, height: area.height },
    )
}

/// The regions of the cards of a row laid out in `columns`, the first card in
/// column `start`; none when the cards do not fit in the columns from there.
pub fn card_regions_in(area: Region, columns: &Vec<Region>, start: usize, n: usize) -> (r: Option<Vec<Region>>)
    ensures
        start + n > columns.len() ==> r.is_none(),
        start + n <= columns.len() ==> r is Some && r->Some_0@ == card_regions_spec(
            area,
            columns@,
            start as int,
            n as int,
        ),
{
    if start > columns.len() || n > columns.len() - start {
        return None;
    }
    let mut out: Vec<Region> = Vec::new();
    let mut i: usize = 0;
    while i < n
        invariant
            i <= n,
            start + n <= columns.len(),
            out@ =~= card_regions_spec(area, columns@, start as int, i as int),
        decreases n - i,
    {
        let c = columns[start + i];
        out.push(Region { x: c.x, y: area.y, width: c.width, height: area.height });
        i = i + 1;
        assert(out@ =~= card_regions_spec(area, columns@, start as int, i as int));
    }
    Some(out)
}

impl<A> Players<A> {
    pub fn constraints_and_start_pos(&self, num_player: usize) -> (r: (Vec<Extent>, usize))
        ensures
            r.0@ == row_design(num_player as int).0,
            r.1 as int == row_design(num_player as int).1,
    {
        if num_player == 1 || num_player == 3 || num_player == 5 {
            let start: usize = if num_player == 5 {
                0
            } else if num_player == 3 {
                1
            } else {
                2
            };
            let v = vec![
                Extent::Percentage(20),
                Extent::Percentage(20),
                Extent::Percentage(20),
                Extent::Percentage(20),
                Extent::Percentage(20),
            ];
            assert(v@ =~= row_design(num_player as int).0);
            (v, start)
        } else {
            let start: usize = if num_player == 4 {
                1
            } else {
                2
            };
            let v = vec![
                Extent::Percentage(10),
                Extent::Percentage(20),
                Extent::Percentage(20),
                Extent::Percentage(20),
                Extent::Percentage(20),
                Extent::Percentage(10),
            ];
            assert(v@ =~= row_design(num_player as int).0);
            (v, start)
        }
    }

    /// Where each card of the group is drawn within `area`: the row is cut into
    /// the columns of its design, inside a one-cell margin, and the cards take
    /// the columns from their design's first on, as `card_regions_in` describes,
    /// at the full height of `area`. None exactly when the group has more cards
    /// than its design has columns from there on (six or more cards).
    pub fn card_regions(&self, area: Region) -> (r: Option<Vec<Region>>)
        ensures
            ({
                let (extents, start) = row_design(self.players@.len() as int);
                &&& r.is_none() <==> start + self.players@.len() > extents.len()
                &&& r.is_none() <==> self.players@.len() > 5
                &&& r is Some ==> {
                    &&& r->Some_0@.len() == self.players@.len()
                    &&& forall|i: int|
                        0 <= i < r->Some_0@.len() ==> #[trigger] r->Some_0@[i].y == area.y
                            && r->Some_0@[i].height == area.height
                    &&& fits(area, 1) ==> forall|i: int|
                        0 <= i < r->Some_0@.len() ==> area.x + 1 <= #[trigger] r->Some_0@[i].x
                            && r->Some_0@[i].x + r->Some_0@[i].width <= area.x + area.width - 1
                    &&& fits(area, 1) ==> forall|i: int, j: int|
                        0 <= i < j < r->Some_0@.len() ==> #[trigger] r->Some_0@[i].x + r->Some_0@[i].width
                            <= #[trigger] r->Some_0@[j].x
                }
            }),
    {
        let design = self.constraints_and_start_pos(self.players.len());
        let columns = split(area, true, &design.0, 1);
        let r = card_regions_in(area, &columns, design.1, self.players.len());
        proof {
            if fits(area, 1) && r is Some {
                let regions = r->Some_0@;
                let start = design.1 as int;
                assert forall|i: int| 0 <= i < regions.len() implies area.x + 1 <= #[trigger] regions[i].x
                    && regions[i].x + regions[i].width <= area.x + area.width - 1 by {
                    assert(placed(area, true, 1, columns@[start + i]));
                }
                assert forall|i: int, j: int| 0 <= i < j < regions.len() implies #[trigger] regions[i].x
                    + regions[i].width <= #[trigger] regions[j].x by {
                    assert(in_order(true, columns@[start + i], columns@[start + j]));
                }
            }
        }
        r
    }
}

} // verus!
