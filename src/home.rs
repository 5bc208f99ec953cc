use vstd::prelude::*;

use std::collections::HashMap;

use crate::action::{Action, Event};
use crate::board::{at, lemma_deliver_keeps_wf, lemma_step_keeps_wf, lemma_wf_one_active, Board};
use crate::card::{card_from_pick, PlayerCard};
use crate::group::Players;
use crate::squad::{
    element_index, members, pick_error, pick_group, pick_known,
    team_index, Element, Manager, Pick, SquadError, Team, GROUP_COUNT,
};
use crate::summary::ManagerSummary;

verus! {

broadcast use vstd::std_specs::hash::group_hash_axioms;

/// The label of each group, in grid order.
pub open spec fn category_name(g: int) -> Seq<char> {
    if g == 0 {
        "Goalkeepers"@
    } else if g == 1 {
        "Defenders"@
    } else if g == 2 {
        "Midfielders"@
    } else if g == 3 {
        "Forwards"@
    } else {
        "Bench"@
    }
}

/// A map from each element's id to the index of the last element with that id.
fn index_elements(elements: &Vec<Element>) -> (r: HashMap<i64, usize>)
    ensures
        forall|id: i64| #[trigger] r@.contains_key(id) <==> element_index(elements@, id) >= 0,
        forall|id: i64|
            #[trigger] r@.contains_key(id) ==> r@[id] as int == element_index(elements@, id) && r@[id] < elements.len(),
{
    let mut m: HashMap<i64, usize> = HashMap::new();
    let mut k: usize = 0;
    while k < elements.len()
        invariant
            k <= elements.len(),
            forall|id: i64| #[trigger] m@.contains_key(id) <==> element_index(elements@.take(k as int), id) >= 0,
            forall|id: i64|
                #[trigger] m@.contains_key(id) ==> m@[id] as int == element_index(elements@.take(k as int), id) && m@[id] < k,
        decreases elements.len() - k,
    {
        assert(elements@.take(k + 1).drop_last() =~= elements@.take(k as int));
        assert(elements@.take(k + 1).last() == elements@[k as int]);
        m.insert(elements[k].id, k);
        k = k + 1;
    }
    assert(elements@.take(k as int) =~= elements@);
    m
}

/// A map from each team's id to the index of the last team with that id.
fn index_teams(teams: &Vec<Team>) -> (r: HashMap<i64, usize>)
    ensures
        forall|id: i64| #[trigger] r@.contains_key(id) <==> team_index(teams@, id) >= 0,
        forall|id: i64|
            #[trigger] r@.contains_key(id) ==> r@[id] as int == team_index(teams@, id) && r@[id] < teams.len(),
{
    let mut m: HashMap<i64, usize> = HashMap::new();
    let mut k: usize = 0;
    while k < teams.len()
        invariant
            k <= teams.len(),
            forall|id: i64| #[trigger] m@.contains_key(id) <==> team_index(teams@.take(k as int), id) >= 0,
            forall|id: i64|
                #[trigger] m@.contains_key(id) ==> m@[id] as int == team_index(teams@.take(k as int), id) && m@[id] < k,
        decreases teams.len() - k,
    {
        assert(teams@.take(k + 1).drop_last() =~= teams@.take(k as int));
        assert(teams@.take(k + 1).last() == teams@[k as int]);
        m.insert(teams[k].id, k);
        k = k + 1;
    }
    assert(teams@.take(k as int) =~= teams@);
    m
}

fn badge_for<A: Clone>(badges: &HashMap<i64, A>, team_code: i64) -> (r: Option<A>)
    ensures
        r.is_some() == badges@.contains_key(team_code),
{
    match badges.get(&team_code) {
        Some(b) => Some(b.clone()),
        None => None,
    }
}

/// The card of one pick, or the error that names what is unknown.
fn card_for_pick<A: Clone>(
    p: Pick,
    elements: &Vec<Element>,
    teams: &Vec<Team>,
    element_ids: &HashMap<i64, usize>,
    team_ids: &HashMap<i64, usize>,
    badges: &HashMap<i64, A>,
) -> (r: Result<PlayerCard<A>, SquadError>)
    requires
        forall|id: i64| #[trigger] element_ids@.contains_key(id) <==> element_index(elements@, id) >= 0,
        forall|id: i64|
            #[trigger] element_ids@.contains_key(id) ==> element_ids@[id] as int == element_index(elements@, id)
                && element_ids@[id] < elements.len(),
        forall|id: i64| #[trigger] team_ids@.contains_key(id) <==> team_index(teams@, id) >= 0,
        forall|id: i64|
            #[trigger] team_ids@.contains_key(id) ==> team_ids@[id] as int == team_index(teams@, id)
                && team_ids@[id] < teams.len(),
    ensures
        match r {
            Ok(c) => pick_known(p, elements@, teams@) && card_from_pick(c, p, elements@, teams@, badges@)
                && !c.is_active,
            Err(e) => !pick_known(p, elements@, teams@) && e == pick_error(p, elements@, teams@),
        },
{
    let j = match element_ids.get(&p.element) {
        Some(j) => *j,
        None => {
            return Err(SquadError::UnknownPlayer(p.element));
        },
    };
    let e = &elements[j];
    let t = match team_ids.get(&e.team) {
        Some(t) => *t,
        None => {
            return Err(SquadError::UnknownTeam(e.team));
        },
    };
    let mut name = e.first_name.clone();
    name.append(" ");
    name.append(e.second_name.as_str());
    proof {
        reveal_strlit(" ");
        assert(" "@ =~= seq![' ']);
    }
    let badge = badge_for(badges, e.team_code);
    Ok(PlayerCard::new(name, teams[t].name.clone(), e.duplicate(), badge, p.position))
}

/// Lays the picks out as the grid's groups, in grid order: each group holds its
/// picks' cards, the last pick first. Fails on the first pick whose player or
/// club is unknown.
pub fn organise_players<A: Clone>(
    picks: &Vec<Pick>,
    elements: &Vec<Element>,
    teams: &Vec<Team>,
    badges: &HashMap<i64, A>,
) -> (r: Result<Vec<Players<A>>, SquadError>)
    ensures
        match r {
            Ok(groups) => {
                &&& forall|k: int| 0 <= k < picks.len() ==> pick_known(#[trigger] picks@[k], elements@, teams@)
                &&& groups.len() == GROUP_COUNT
                &&& forall|g: int|
                    #![trigger groups@[g]]
                    0 <= g < GROUP_COUNT ==> {
                        &&& groups@[g].category@ == category_name(g)
                        &&& groups@[g].players.len() == members(picks@, elements@, g).len()
                        &&& forall|i: int|
                            0 <= i < groups@[g].players.len() ==> {
                                &&& card_from_pick(
                                    #[trigger] groups@[g].players@[i],
                                    members(picks@, elements@, g)[i],
                                    elements@,
                                    teams@,
                                    badges@,
                                )
                                &&& !groups@[g].players@[i].is_active
                            }
                    }
            },
            Err(e) => exists|k: int|
                {
                    &&& 0 <= k < picks.len()
                    &&& !pick_known(#[trigger] picks@[k], elements@, teams@)
                    &&& forall|j: int| 0 <= j < k ==> pick_known(#[trigger] picks@[j], elements@, teams@)
                    &&& e == pick_error(picks@[k], elements@, teams@)
                },
        },
{
    let player_id_to_details = index_elements(elements);
    let team_id_to_details = index_teams(teams);
    let n = picks.len();
    let mut cards: Vec<PlayerCard<A>> = Vec::new();
    let mut k: usize = 0;
    while k < n
        invariant
            n == picks.len(),
            k <= n,
            cards.len() == k,
            forall|id: i64|
                #[trigger] player_id_to_details@.contains_key(id) <==> element_index(elements@, id) >= 0,
            forall|id: i64|
                #[trigger] player_id_to_details@.contains_key(id) ==> player_id_to_details@[id] as int
                    == element_index(elements@, id) && player_id_to_details@[id] < elements.len(),
            forall|id: i64| #[trigger] team_id_to_details@.contains_key(id) <==> team_index(teams@, id) >= 0,
            forall|id: i64|
                #[trigger] team_id_to_details@.contains_key(id) ==> team_id_to_details@[id] as int == team_index(
                    teams@,
                    id,
                ) && team_id_to_details@[id] < teams.len(),
            forall|j: int| 0 <= j < k ==> pick_known(#[trigger] picks@[j], elements@, teams@),
            forall|j: int|
                0 <= j < k ==> card_from_pick(#[trigger] cards@[j], picks@[j], elements@, teams@, badges@)
                    && !cards@[j].is_active,
        decreases n - k,
    {
        match card_for_pick(picks[k], elements, teams, &player_id_to_details, &team_id_to_details, badges) {
            Ok(c) => cards.push(c),
            Err(e) => {
                assert(!pick_known(picks@[k as int], elements@, teams@));
                return Err(e);
            },
        }
        k = k + 1;
    }
    let mut groups: Vec<Players<A>> = Vec::new();
    groups.push(Players::new(String::from_str("Goalkeepers"), Vec::new()));
    groups.push(Players::new(String::from_str("Defenders"), Vec::new()));
    groups.push(Players::new(String::from_str("Midfielders"), Vec::new()));
    groups.push(Players::new(String::from_str("Forwards"), Vec::new()));
    groups.push(Players::new(String::from_str("Bench"), Vec::new()));
    assert(picks@.subrange(n as int, n as int) =~= Seq::<Pick>::empty());
    while k > 0
        invariant
            n == picks.len(),
            k <= n,
            cards.len() == k,
            forall|j: int| 0 <= j < n ==> pick_known(#[trigger] picks@[j], elements@, teams@),
            forall|j: int|
                0 <= j < k ==> card_from_pick(#[trigger] cards@[j], picks@[j], elements@, teams@, badges@)
                    && !cards@[j].is_active,
            groups.len() == GROUP_COUNT,
            forall|g: int|
                #![trigger groups@[g]]
                0 <= g < GROUP_COUNT ==> {
                    &&& groups@[g].category@ == category_name(g)
                    &&& groups@[g].players.len() == members(picks@.subrange(k as int, n as int), elements@, g).len()
                    &&& forall|i: int|
                        0 <= i < groups@[g].players.len() ==> {
                            &&& card_from_pick(
                                #[trigger] groups@[g].players@[i],
                                members(picks@.subrange(k as int, n as int), elements@, g)[i],
                                elements@,
                                teams@,
                                badges@,
                            )
                            &&& !groups@[g].players@[i].is_active
                        }
                },
        decreases k,
    {
        let ghost before = groups@;
        let ghost p = picks@[k - 1];
        let c = cards.pop().unwrap();
        assert(card_from_pick(c, p, elements@, teams@, badges@));
        let ghost tail = picks@.subrange(k as int, n as int);
        assert(picks@.subrange(k - 1, n as int).skip(1) =~= tail);
        assert(picks@.subrange(k - 1, n as int)[0] == p);
        let pos = c.position;
        let role = c.details.element_type;
        let target: Option<usize> = if 12 <= pos && pos <= 15 {
            Some(4)
        } else if 1 <= role && role <= 4 {
            Some((role - 1) as usize)
        } else {
            None
        };
        assert(target.is_some() ==> pick_group(p, elements@) == Some(target.unwrap() as int));
        assert(target.is_none() ==> pick_group(p, elements@).is_none());
        match target {
            Some(g) => {
                groups[g].players.push(c);
                assert forall|h: int| #![trigger groups@[h]] 0 <= h < GROUP_COUNT && h != g implies groups@[h]
                    == before[h] by {}
            },
            None => {},
        }
        k = k - 1;
        assert forall|h: int| #![trigger groups@[h]] 0 <= h < GROUP_COUNT implies {
            &&& groups@[h].category@ == category_name(h)
            &&& groups@[h].players.len() == members(picks@.subrange(k as int, n as int), elements@, h).len()
            &&& forall|i: int|
                0 <= i < groups@[h].players.len() ==> {
                    &&& card_from_pick(
                        #[trigger] groups@[h].players@[i],
                        members(picks@.subrange(k as int, n as int), elements@, h)[i],
                        elements@,
                        teams@,
                        badges@,
                    )
                    &&& !groups@[h].players@[i].is_active
                }
        } by {
            let m = members(picks@.subrange(k as int, n as int), elements@, h);
            assert(m == if pick_group(p, elements@) == Some(h) {
                members(tail, elements@, h).push(p)
            } else {
                members(tail, elements@, h)
            });
        }
    }
    assert(picks@.subrange(0, n as int) =~= picks@);
    Ok(groups)
}

/// The root of the component tree: the grid of cards, the index that routes
/// fetched pictures to their card, and the navigation state.
pub struct Home<A> {
    picked_players: Vec<Players<A>>,
    player_code_to_player: HashMap<i64, (usize, usize)>,
    manager_summary: ManagerSummary,
    active_player_coordinate: (usize, usize),
    show_player_big: bool,
}

impl<A> View for Home<A> {
    type V = Board<A>;

    closed spec fn view(&self) -> Board<A> {
        Board {
            groups: self.picked_players@.map_values(|p: Players<A>| p.players@),
            index: self.player_code_to_player@,
            coord: at(self.active_player_coordinate),
            detail_open: self.show_player_big,
        }
    }
}

impl<A: Clone> Home<A> {
    /// Builds the grid from a gameweek's picks and the game's players, clubs and
    /// club badges: the groups that `organise_players` lays out, an index from each
    /// card's player code to its coordinate, and the first card of the first
    /// group active. Fails as `organise_players` does, or on the first group
    /// that would be empty.
    pub fn new(
        manager: Manager,
        picks: &Vec<Pick>,
        elements: &Vec<Element>,
        teams: &Vec<Team>,
        team_to_badge: &HashMap<i64, A>,
    ) -> (r: Result<Self, SquadError>)
        ensures
            match r {
                Ok(h) => {
                    &&& h.summary().details == manager
                    &&& forall|k: int| 0 <= k < picks.len() ==> pick_known(#[trigger] picks@[k], elements@, teams@)
                    &&& forall|g: int| 0 <= g < GROUP_COUNT ==> #[trigger] members(picks@, elements@, g).len() > 0
                    &&& h@.wf()
                    &&& h@.one_active()
                    &&& h@.coord == (0int, 0int)
                    &&& !h@.detail_open
                    &&& h@.groups.len() == GROUP_COUNT
                    &&& forall|g: int|
                        #![trigger h@.groups[g]]
                        0 <= g < GROUP_COUNT ==> {
                            &&& h@.groups[g].len() == members(picks@, elements@, g).len()
                            &&& forall|i: int|
                                0 <= i < h@.groups[g].len() ==> card_from_pick(
                                    #[trigger] h@.groups[g][i],
                                    members(picks@, elements@, g)[i],
                                    elements@,
                                    teams@,
                                    team_to_badge@,
                                )
                        }
                },
                Err(e) => {
                    ||| exists|k: int|
                        {
                            &&& 0 <= k < picks.len()
                            &&& !pick_known(#[trigger] picks@[k], elements@, teams@)
                            &&& forall|j: int| 0 <= j < k ==> pick_known(#[trigger] picks@[j], elements@, teams@)
                            &&& e == pick_error(picks@[k], elements@, teams@)
                        }
                    ||| {
                        &&& forall|k: int| 0 <= k < picks.len() ==> pick_known(#[trigger] picks@[k], elements@, teams@)
                        &&& exists|g: int|
                            {
                                &&& 0 <= g < GROUP_COUNT
                                &&& #[trigger] members(picks@, elements@, g).len() == 0
                                &&& forall|h: int| 0 <= h < g ==> #[trigger] members(picks@, elements@, h).len() > 0
                                &&& e == SquadError::EmptyGroup(g as usize)
                            }
                    }
                },
            },
    {
        let mut groups = match organise_players(picks, elements, teams, team_to_badge) {
            Ok(groups) => groups,
            Err(e) => {
                return Err(e);
            },
        };
        let mut g: usize = 0;
        while g < GROUP_COUNT
            invariant
                groups.len() == GROUP_COUNT,
                forall|h: int| 0 <= h < GROUP_COUNT ==> #[trigger] groups@[h].players.len() == members(picks@, elements@, h).len(),
                forall|h: int| 0 <= h < g ==> #[trigger] members(picks@, elements@, h).len() > 0,
                forall|k: int| 0 <= k < picks.len() ==> pick_known(#[trigger] picks@[k], elements@, teams@),
                g <= GROUP_COUNT,
            decreases GROUP_COUNT - g,
        {
            if groups[g].players.len() == 0 {
                assert(members(picks@, elements@, g as int).len() == 0);
                assert(SquadError::EmptyGroup(g) == SquadError::EmptyGroup((g as int) as usize));
                return Err(SquadError::EmptyGroup(g));
            }
            g = g + 1;
        }
        let mut index: HashMap<i64, (usize, usize)> = HashMap::new();
        let ghost grid = groups@.map_values(|p: Players<A>| p.players@);
        g = 0;
        while g < GROUP_COUNT
            invariant
                g <= GROUP_COUNT,
                groups.len() == GROUP_COUNT,
                grid == groups@.map_values(|p: Players<A>| p.players@),
                forall|code: i64| #[trigger]
                    index@.contains_key(code) ==> {
                        let q = at(index@[code]);
                        &&& 0 <= q.0 < GROUP_COUNT
                        &&& 0 <= q.1 < grid[q.0].len()
                        &&& grid[q.0][q.1].details.code == code
                    },
                forall|h: int, i: int|
                    0 <= h < g && 0 <= i < grid[h].len() ==> index@.contains_key(#[trigger] grid[h][i].details.code),
            decreases GROUP_COUNT - g,
        {
            let mut i: usize = 0;
            while i < groups[g].players.len()
                invariant
                    g < GROUP_COUNT,
                    groups.len() == GROUP_COUNT,
                    grid == groups@.map_values(|p: Players<A>| p.players@),
                    i <= grid[g as int].len(),
                    forall|code: i64| #[trigger]
                        index@.contains_key(code) ==> {
                            let q = at(index@[code]);
                            &&& 0 <= q.0 < GROUP_COUNT
                            &&& 0 <= q.1 < grid[q.0].len()
                            &&& grid[q.0][q.1].details.code == code
                        },
                    forall|h: int, j: int|
                        (0 <= h < g && 0 <= j < grid[h].len()) || (h == g && 0 <= j < i) ==> index@.contains_key(
                            #[trigger] grid[h][j].details.code,
                        ),
                decreases grid[g as int].len() - i,
            {
                let code = groups[g].players[i].details.code;
                index.insert(code, (g, i));
                i = i + 1;
            }
            g = g + 1;
        }
        groups[0].players[0].mark_active(true);
        let h = Home {
            picked_players: groups,
            player_code_to_player: index,
            manager_summary: ManagerSummary::new(manager),
            active_player_coordinate: (0, 0),
            show_player_big: false,
        };
        assert forall|gi: int| 0 <= gi < GROUP_COUNT implies #[trigger] h@.groups[gi] == if gi == 0 {
            grid[0].update(0, grid[0][0].with_active(true))
        } else {
            grid[gi]
        } by {}
        assert(h@.wf());
        proof {
            lemma_wf_one_active(h@);
        }
        Ok(h)
    }
}

impl<A> Home<A> {
    fn mark_player_active_state(&mut self, coordinate: (usize, usize), state: bool)
        requires
            old(self)@.valid(at(coordinate)),
        ensures
            final(self)@ == (Board {
                groups: old(self)@.groups.update(
                    coordinate.0 as int,
                    old(self)@.groups[coordinate.0 as int].update(
                        coordinate.1 as int,
                        old(self)@.card(at(coordinate)).with_active(state),
                    ),
                ),
                ..old(self)@
            }),
    {
        self.picked_players[coordinate.0].players[coordinate.1].mark_active(state);
        assert(self@.groups =~= old(self)@.groups.update(
            coordinate.0 as int,
            old(self)@.groups[coordinate.0 as int].update(
                coordinate.1 as int,
                old(self)@.card(at(coordinate)).with_active(state),
            ),
        ));
    }

    fn update_player_active(&mut self, prev: (usize, usize))
        requires
            old(self)@.valid(at(prev)),
            old(self)@.valid(old(self)@.coord),
        ensures
            final(self)@ == (Board { coord: at(prev), ..old(self)@ }).moved(old(self)@.coord),
    {
        self.mark_player_active_state(prev, false);
        let c = self.active_player_coordinate;
        self.mark_player_active_state(c, true);
    }

    /// The manager panel that the grid was built with.
    pub closed spec fn summary(&self) -> ManagerSummary {
        self.manager_summary
    }

    pub fn manager_summary(&self) -> (r: &ManagerSummary)
        ensures
            *r == self.summary(),
    {
        &self.manager_summary
    }

    /// The groups of cards, in grid order.
    pub fn groups(&self) -> (r: &Vec<Players<A>>)
        ensures
            r@.map_values(|p: Players<A>| p.players@) == self@.groups,
    {
        &self.picked_players
    }

    pub fn coordinate(&self) -> (r: (usize, usize))
        ensures
            at(r) == self@.coord,
    {
        self.active_player_coordinate
    }

    pub fn show_player_big(&self) -> (r: bool)
        ensures
            r == self@.detail_open,
    {
        self.show_player_big
    }

    /// The card at the active coordinate.
    pub fn active_card(&self) -> (r: &PlayerCard<A>)
        requires
            self@.wf(),
        ensures
            *r == self@.card(self@.coord),
    {
        let c = self.active_player_coordinate;
        &self.picked_players[c.0].players[c.1]
    }

    /// Takes one action: moves the active card, opens or closes the detail
    /// view, and on a confirm asks for the active card's picture if it has none.
    pub fn update(&mut self, action: &Action) -> (r: Option<Action>)
        requires
            old(self)@.wf(),
        ensures
            final(self)@ == old(self)@.step(*action),
            final(self)@.wf(),
            final(self)@.one_active(),
            r == old(self)@.reply(*action),
    {
        proof {
            lemma_step_keeps_wf(self@, *action);
            lemma_wf_one_active(self@.step(*action));
        }
        let prev = self.active_player_coordinate;
        assert(prev.0 < self.picked_players.len());
        match action {
            Action::Enter => {
                self.show_player_big = true;
                let current = &self.picked_players[prev.0].players[prev.1];
                if !current.has_image() {
                    Some(Action::GetPlayerImage(current.details.code))
                } else {
                    None
                }
            },
            Action::Escape => {
                self.show_player_big = false;
                None
            },
            Action::Left => {
                if self.active_player_coordinate.1 != 0 {
                    self.active_player_coordinate.1 = self.active_player_coordinate.1 - 1;
                }
                self.update_player_active(prev);
                None
            },
            Action::Right => {
                if self.picked_players[prev.0].players.len() != prev.1 + 1 {
                    self.active_player_coordinate.1 = self.active_player_coordinate.1 + 1;
                }
                self.update_player_active(prev);
                None
            },
            Action::Up => {
                self.active_player_coordinate.0 = if prev.0 == 0 { 0 } else { prev.0 - 1 };
                self.active_player_coordinate.1 = 0;
                self.update_player_active(prev);
                None
            },
            Action::Down => {
                self.active_player_coordinate.0 = if prev.0 + 1 == self.picked_players.len() { prev.0 } else { prev.0 + 1 };
                self.active_player_coordinate.1 = 0;
                self.update_player_active(prev);
                None
            },
            _ => None,
        }
    }

    /// Takes one raw event: a delivered picture goes to the card that the index
    /// names for its code, and is dropped when the code is unknown. Nothing is answered.
    pub fn handle_events(&mut self, event: Event<A>) -> (r: Option<Action>)
        requires
            old(self)@.wf(),
        ensures
            final(self)@ == (match event {
                Event::PlayerImage(code, image) => old(self)@.deliver(code, image),
                _ => old(self)@,
            }),
            final(self)@.wf(),
            r.is_none(),
    {
        match event {
            Event::PlayerImage(code, image) => {
                proof {
                    lemma_deliver_keeps_wf(self@, code, image);
                }
                self.deliver_image(code, image);
            },
            _ => {},
        }
        None
    }

    /// Hands `image` to the card whose code is `code`, if the index knows it.
    pub fn deliver_image(&mut self, code: i64, image: A)
        requires
            old(self)@.wf(),
        ensures
            final(self)@ == old(self)@.deliver(code, image),
            final(self)@.wf(),
    {
        proof {
            lemma_deliver_keeps_wf(self@, code, image);
        }
        match self.player_code_to_player.get(&code) {
            Some(c) => {
                let c = *c;
                assert(self@.valid(at(c)));
                self.picked_players[c.0].players[c.1].set_image(image);
                assert(self@.groups =~= old(self)@.deliver(code, image).groups);
            },
            None => {},
        }
    }
}

} // verus!
