use vstd::prelude::*;

verus! {

/// What the data provider tells about one player of the game.
pub struct Element {
    pub id: i64,
    pub code: i64,
    pub team: i64,
    pub team_code: i64,
    pub element_type: i64,
    pub first_name: String,
    pub second_name: String,
    pub event_points: i64,
    pub goals_scored: i64,
    pub assists: i64,
    pub ep_this: String,
    pub ep_next: String,
    pub bonus: i64,
    pub status: String,
}

/// The manager whose squad is shown, with their season and gameweek standing.
pub struct Manager {
    pub name: String,
    pub player_first_name: String,
    pub player_last_name: String,
    pub player_region_name: String,
    pub summary_overall_rank: i64,
    pub summary_overall_points: i64,
    pub summary_event_rank: i64,
    pub summary_event_points: i64,
    pub current_event: i64,
}

/// A club of the game, as the data provider names it.
pub struct Team {
    pub id: i64,
    pub code: i64,
    pub name: String,
}

/// One player picked for a gameweek, with the slot (1 to 15) that they fill.
#[derive(Clone, Copy, Debug, PartialEq, Eq, Structural)]
pub struct Pick {
    pub element: i64,
    pub position: i64,
}

/// Two elements are alike when every field holds the same value.
pub open spec fn same_element(a: Element, b: Element) -> bool {
    &&& a.id == b.id
    &&& a.code == b.code
    &&& a.team == b.team
    &&& a.team_code == b.team_code
    &&& a.element_type == b.element_type
    &&& a.first_name@ == b.first_name@
    &&& a.second_name@ == b.second_name@
    &&& a.event_points == b.event_points
    &&& a.goals_scored == b.goals_scored
    &&& a.assists == b.assists
    &&& a.ep_this@ == b.ep_this@
    &&& a.ep_next@ == b.ep_next@
    &&& a.bonus == b.bonus
    &&& a.status@ == b.status@
}

impl Element {
    /// A field-by-field copy.
    pub fn duplicate(&self) -> (r: Element)
        ensures
            same_element(r, *self),
    {
        Element {
            id: self.id,
            code: self.code,
            team: self.team,
            team_code: self.team_code,
            element_type: self.element_type,
            first_name: self.first_name.clone(),
            second_name: self.second_name.clone(),
            event_points: self.event_points,
            goals_scored: self.goals_scored,
            assists: self.assists,
            ep_this: self.ep_this.clone(),
            ep_next: self.ep_next.clone(),
            bonus: self.bonus,
            status: self.status.clone(),
        }
    }
}

/// Why a squad could not be laid out as a grid.
#[derive(Clone, Copy, Debug, PartialEq, Eq, Structural)]
pub enum SquadError {
    /// A pick names a player that the game does not list.
    UnknownPlayer(i64),
    /// A player's club is not among the game's clubs.
    UnknownTeam(i64),
    /// The group of this index would hold no card.
    EmptyGroup(usize),
}

/// The number of groups of the grid.
pub const GROUP_COUNT: usize = 5;

/// The group of a pick: slots 12 to 15 are the bench, the others go by the
/// player's role (1 goalkeeper, 2 defender, 3 midfielder, 4 forward).
/// A pick that fits none is left out.
pub open spec fn group_of(position: i64, element_type: i64) -> Option<int> {
    if 12 <= position <= 15 {
        Some(4)
    } else if 1 <= element_type <= 4 {
        Some(element_type - 1)
    } else {
        None
    }
}

/// The index of the last element with this id, or -1.
pub open spec fn element_index(elements: Seq<Element>, id: i64) -> int
    decreases elements.len(),
{
    if elements.len() == 0 {
        -1
    } else if elements.last().id == id {
        elements.len() - 1
    } else {
        element_index(elements.drop_last(), id)
    }
}

/// The index of the last team with this id, or -1.
pub open spec fn team_index(teams: Seq<Team>, id: i64) -> int
    decreases teams.len(),
{
    if teams.len() == 0 {
        -1
    } else if teams.last().id == id {
        teams.len() - 1
    } else {
        team_index(teams.drop_last(), id)
    }
}

/// The element that a pick names (meaningful when it exists).
pub open spec fn picked_element(p: Pick, elements: Seq<Element>) -> Element {
    elements[element_index(elements, p.element)]
}

/// A pick whose player and whose player's club are both known.
pub open spec fn pick_known(p: Pick, elements: Seq<Element>, teams: Seq<Team>) -> bool {
    &&& element_index(elements, p.element) >= 0
    &&& team_index(teams, picked_element(p, elements).team) >= 0
}

/// The error for a pick that is not known.
pub open spec fn pick_error(p: Pick, elements: Seq<Element>, teams: Seq<Team>) -> SquadError {
    if element_index(elements, p.element) < 0 {
        SquadError::UnknownPlayer(p.element)
    } else {
        SquadError::UnknownTeam(picked_element(p, elements).team)
    }
}

/// The group that a known pick goes to.
pub open spec fn pick_group(p: Pick, elements: Seq<Element>) -> Option<int> {
    group_of(p.position, picked_element(p, elements).element_type)
}

/// The picks of group `g`, the last pick first.
pub open spec fn members(picks: Seq<Pick>, elements: Seq<Element>, g: int) -> Seq<Pick>
    decreases picks.len(),
{
    if picks.len() == 0 {
        Seq::empty()
    } else {
        let rest = members(picks.skip(1), elements, g);
        if pick_group(picks[0], elements) == Some(g) {
            rest.push(picks[0])
        } else {
            rest
        }
    }
}

} // verus!
