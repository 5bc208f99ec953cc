use vstd::prelude::*;

use crate::action::Action;
use crate::card::PlayerCard;

verus! {

/// The state of the card grid as a mathematical value: the groups of cards,
/// the index from player code to position, the active coordinate, and whether
/// the detail view is open.
pub struct Board<A> {
    pub groups: Seq<Seq<PlayerCard<A>>>,
    pub index: Map<i64, (usize, usize)>,
    pub coord: (int, int),
    pub detail_open: bool,
}

pub open spec fn at(p: (usize, usize)) -> (int, int) {
    (p.0 as int, p.1 as int)
}

impl<A> Board<A> {
    /// `c` addresses a card of the grid.
    pub open spec fn valid(self, c: (int, int)) -> bool {
        0 <= c.0 < self.groups.len() && 0 <= c.1 < self.groups[c.0].len()
    }

    pub open spec fn card(self, c: (int, int)) -> PlayerCard<A> {
        self.groups[c.0][c.1]
    }

    /// Every group holds a card, the coordinate addresses one, exactly the card
    /// there is active, and the index and the grid agree on every code.
    pub open spec fn wf(self) -> bool {
        &&& self.groups.len() > 0
        &&& forall|g: int| 0 <= g < self.groups.len() ==> #[trigger] self.groups[g].len() > 0
        &&& self.valid(self.coord)
        &&& forall|g: int, i: int|
            self.valid((g, i)) ==> (#[trigger] self.groups[g][i].is_active <==> (g, i) == self.coord)
        &&& forall|code: i64| #[trigger]
            self.index.contains_key(code) ==> {
                &&& self.valid(at(self.index[code]))
                &&& self.card(at(self.index[code])).details.code == code
            }
        &&& forall|g: int, i: int|
            self.valid((g, i)) ==> self.index.contains_key(#[trigger] self.groups[g][i].details.code)
    }

    /// Exactly one card of the grid is active.
    pub open spec fn one_active(self) -> bool {
        exists|c: (int, int)|
            {
                &&& self.valid(c)
                &&& #[trigger] self.card(c).is_active
                &&& forall|d: (int, int)| self.valid(d) && #[trigger] self.card(d).is_active ==> d == c
            }
    }

    /// Where a directional action leads: along a group clamped at its ends,
    /// or to the first card of the neighbouring group, clamped at the first and last.
    pub open spec fn target(self, a: Action) -> (int, int) {
        let (g, i) = self.coord;
        match a {
            Action::Left => (g, if i == 0 { 0 } else { i - 1 }),
            Action::Right => (g, if i + 1 < self.groups[g].len() { i + 1 } else { i }),
            Action::Up => (if g == 0 { 0 } else { g - 1 }, 0),
            Action::Down => (if g + 1 < self.groups.len() { g + 1 } else { g }, 0),
            _ => (g, i),
        }
    }

    /// Move the coordinate to `to`: clear the old card's flag, then set the new one's.
    pub open spec fn moved(self, to: (int, int)) -> Board<A> {
        let c = self.coord;
        let cleared = self.groups.update(c.0, self.groups[c.0].update(c.1, self.card(c).with_active(false)));
        let set = cleared.update(to.0, cleared[to.0].update(to.1, cleared[to.0][to.1].with_active(true)));
        Board { groups: set, coord: to, ..self }
    }

    /// The board after the component tree has taken `a`.
    pub open spec fn step(self, a: Action) -> Board<A> {
        match a {
            Action::Left | Action::Right | Action::Up | Action::Down => self.moved(self.target(a)),
            Action::Enter => Board { detail_open: true, ..self },
            Action::Escape => Board { detail_open: false, ..self },
            _ => self,
        }
    }

    /// What the component tree answers to `a`: a request for the active card's
    /// picture on a confirm while the card has none.
    pub open spec fn reply(self, a: Action) -> Option<Action> {
        match a {
            Action::Enter => if self.card(self.coord).image.is_none() {
                Some(Action::GetPlayerImage(self.card(self.coord).details.code))
            } else {
                None
            },
            _ => None,
        }
    }

    /// The board after a sequence of actions, the first taken first.
    pub open spec fn walk(self, acts: Seq<Action>) -> Board<A>
        decreases acts.len(),
    {
        if acts.len() == 0 {
            self
        } else {
            self.walk(acts.drop_last()).step(acts.last())
        }
    }

    /// The board after the picture `image` has come back for `code`: the card that
    /// the index names holds it; an unknown code changes nothing.
    pub open spec fn deliver(self, code: i64, image: A) -> Board<A> {
        if self.index.contains_key(code) {
            let p = at(self.index[code]);
            Board {
                groups: self.groups.update(p.0, self.groups[p.0].update(p.1, self.card(p).with_image(image))),
                ..self
            }
        } else {
            self
        }
    }
}

/// Every action keeps the board well formed.
pub proof fn lemma_step_keeps_wf<A>(b: Board<A>, a: Action)
    requires
        b.wf(),
    ensures
        b.step(a).wf(),
        b.step(a).index == b.index,
{
    let s = b.step(a);
    match a {
        Action::Left | Action::Right | Action::Up | Action::Down => {
            let to = b.target(a);
            assert(b.valid(to));
            assert forall|g: int| 0 <= g < s.groups.len() implies #[trigger] s.groups[g].len() > 0 by {
                assert(s.groups[g].len() == b.groups[g].len());
            }
            assert forall|g: int, i: int| s.valid((g, i)) implies (#[trigger] s.groups[g][i].is_active <==> (g, i)
                == s.coord) by {
                assert(b.valid((g, i)));
            }
            assert forall|code: i64| #[trigger] s.index.contains_key(code) implies {
                &&& s.valid(at(s.index[code]))
                &&& s.card(at(s.index[code])).details.code == code
            } by {
                assert(b.valid(at(b.index[code])));
            }
            assert forall|g: int, i: int| s.valid((g, i)) implies s.index.contains_key(
                #[trigger] s.groups[g][i].details.code,
            ) by {
                assert(b.valid((g, i)));
                assert(s.groups[g][i].details == b.groups[g][i].details);
            }
        },
        _ => {},
    }
}

/// Delivering a picture keeps the board well formed and leaves the coordinate,
/// the index and the detail flag as they were.
pub proof fn lemma_deliver_keeps_wf<A>(b: Board<A>, code: i64, image: A)
    requires
        b.wf(),
    ensures
        b.deliver(code, image).wf(),
        b.deliver(code, image).coord == b.coord,
        b.deliver(code, image).index == b.index,
        b.deliver(code, image).detail_open == b.detail_open,
{
    let s = b.deliver(code, image);
    if b.index.contains_key(code) {
        let p = at(b.index[code]);
        assert forall|g: int| 0 <= g < s.groups.len() implies #[trigger] s.groups[g].len() > 0 by {
            assert(s.groups[g].len() == b.groups[g].len());
        }
        assert forall|g: int, i: int| s.valid((g, i)) implies (#[trigger] s.groups[g][i].is_active <==> (g, i)
            == s.coord) by {
            assert(b.valid((g, i)));
        }
        assert forall|c: i64| #[trigger] s.index.contains_key(c) implies {
            &&& s.valid(at(s.index[c]))
            &&& s.card(at(s.index[c])).details.code == c
        } by {
            assert(b.valid(at(b.index[c])));
        }
        assert forall|g: int, i: int| s.valid((g, i)) implies s.index.contains_key(
            #[trigger] s.groups[g][i].details.code,
        ) by {
            assert(b.valid((g, i)));
            assert(s.groups[g][i].details == b.groups[g][i].details);
        }
    }
}

/// Moving between two cards of the grid, when exactly the card at the
/// coordinate is active, leaves exactly the target card active: the coordinate
/// becomes the target, and the pictures, the detail flag, the index and the
/// length of every group stay as they were (also when the target is the
/// coordinate itself).
pub proof fn lemma_move_marks_only_target<A>(b: Board<A>, to: (int, int))
    requires
        b.valid(b.coord),
        b.valid(to),
        forall|g: int, i: int| b.valid((g, i)) ==> (#[trigger] b.groups[g][i].is_active <==> (g, i) == b.coord),
    ensures
        b.moved(to).coord == to,
        b.moved(to).detail_open == b.detail_open,
        b.moved(to).index == b.index,
        b.moved(to).groups.len() == b.groups.len(),
        forall|g: int| 0 <= g < b.groups.len() ==> #[trigger] b.moved(to).groups[g].len() == b.groups[g].len(),
        forall|g: int, i: int|
            b.valid((g, i)) ==> (#[trigger] b.moved(to).groups[g][i].is_active <==> (g, i) == to),
        forall|g: int, i: int|
            b.valid((g, i)) ==> #[trigger] b.moved(to).groups[g][i].image == b.groups[g][i].image,
        b.moved(to).one_active(),
{
    let m = b.moved(to);
    assert forall|g: int| 0 <= g < b.groups.len() implies #[trigger] m.groups[g].len() == b.groups[g].len() by {}
    assert forall|g: int, i: int| b.valid((g, i)) implies (#[trigger] m.groups[g][i].is_active <==> (g, i) == to) by {}
    assert forall|g: int, i: int| b.valid((g, i)) implies #[trigger] m.groups[g][i].image == b.groups[g][i].image by {}
    assert(m.card(to).is_active);
    assert forall|d: (int, int)| m.valid(d) && #[trigger] m.card(d).is_active implies d == to by {
        assert(m.groups[d.0][d.1].is_active);
    }
}

/// On a well-formed board exactly one card is active.
pub proof fn lemma_wf_one_active<A>(b: Board<A>)
    requires
        b.wf(),
    ensures
        b.one_active(),
{
    let c = b.coord;
    assert(b.card(c).is_active);
    assert forall|d: (int, int)| b.valid(d) && #[trigger] b.card(d).is_active implies d == c by {
        assert(b.groups[d.0][d.1].is_active);
    }
}

/// After any finite sequence of actions from a well-formed board, the coordinate
/// still addresses a card of the grid and exactly one card is active.
pub proof fn lemma_walk_keeps_one_active<A>(b: Board<A>, acts: Seq<Action>)
    requires
        b.wf(),
    ensures
        b.walk(acts).wf(),
        b.walk(acts).valid(b.walk(acts).coord),
        b.walk(acts).one_active(),
    decreases acts.len(),
{
    if acts.len() > 0 {
        lemma_walk_keeps_one_active(b, acts.drop_last());
        lemma_step_keeps_wf(b.walk(acts.drop_last()), acts.last());
    }
    lemma_wf_one_active(b.walk(acts));
}

/// Delivering the same picture twice for the same code leaves the board as
/// delivering it once.
pub proof fn lemma_deliver_idempotent<A>(b: Board<A>, code: i64, image: A)
    requires
        b.wf(),
    ensures
        b.deliver(code, image).deliver(code, image) == b.deliver(code, image),
{
    let once = b.deliver(code, image);
    if b.index.contains_key(code) {
        let p = at(b.index[code]);
        let twice = once.deliver(code, image);
        assert(b.valid(p));
        assert(once.card(p) == b.card(p).with_image(image));
        assert(once.card(p).with_image(image) == once.card(p));
        assert(once.groups[p.0].update(p.1, once.card(p)) =~= once.groups[p.0]);
        assert(twice.groups =~= once.groups);
    }
}

/// A picture for a code that the index does not hold changes nothing.
pub proof fn lemma_deliver_unknown_code<A>(b: Board<A>, code: i64, image: A)
    requires
        !b.index.contains_key(code),
    ensures
        b.deliver(code, image) == b,
{
}

/// A confirm on a card without a picture opens the detail view and asks for
/// the card's picture; a cancel closes the view and asks nothing; when no
/// picture has arrived meanwhile, a second confirm asks for it again.
pub proof fn lemma_confirm_requests_until_delivered<A>(b: Board<A>)
    requires
        b.wf(),
        b.card(b.coord).image.is_none(),
    ensures
        b.step(Action::Enter).detail_open,
        b.reply(Action::Enter) == Some(Action::GetPlayerImage(b.card(b.coord).details.code)),
        !b.step(Action::Enter).step(Action::Escape).detail_open,
        b.step(Action::Enter).reply(Action::Escape).is_none(),
        b.step(Action::Enter).step(Action::Escape).reply(Action::Enter) == b.reply(Action::Enter),
{
}

/// At the first card of the first group, Left and Up keep the coordinate.
pub proof fn lemma_clamp_at_start<A>(b: Board<A>)
    requires
        b.wf(),
        b.coord == (0int, 0int),
    ensures
        b.step(Action::Left).coord == b.coord,
        b.step(Action::Up).coord == b.coord,
{
}

/// At the last card of the last group, Right keeps the coordinate and Down keeps
/// the group; Down keeps the whole coordinate when that group holds one card,
/// since a move between groups starts at the group's first card.
pub proof fn lemma_clamp_at_end<A>(b: Board<A>)
    requires
        b.wf(),
        b.coord.0 == b.groups.len() - 1,
        b.coord.1 == b.groups[b.coord.0].len() - 1,
    ensures
        b.step(Action::Right).coord == b.coord,
        b.step(Action::Down).coord.0 == b.coord.0,
        b.groups[b.coord.0].len() == 1 ==> b.step(Action::Down).coord == b.coord,
{
}

} // verus!
