use vstd::prelude::*;

use crate::squad::{picked_element, same_element, team_index, Element, Pick, Team};
use crate::summary::labelled;
use crate::text::{decimal, int_text};

verus! {

/// One selectable player of the grid. `A` is whatever the terminal can paint
/// as a picture; the card only cares whether it holds one.
pub struct PlayerCard<A> {
    pub name: String,
    pub team: String,
    pub details: Element,
    pub is_active: bool,
    pub image: Option<A>,
    pub badge: Option<A>,
    pub position: i64,
}

impl<A> PlayerCard<A> {
    /// The card with its activity flag set to `state`, all else kept.
    pub open spec fn with_active(self, state: bool) -> PlayerCard<A> {
        PlayerCard { is_active: state, ..self }
    }

    /// The card holding `image` as its picture, all else kept.
    pub open spec fn with_image(self, image: A) -> PlayerCard<A> {
        PlayerCard { image: Some(image), ..self }
    }

    /// A fresh card: inactive and without a picture.
    pub fn new(name: String, team: String, details: Element, badge: Option<A>, position: i64) -> (r: Self)
        ensures
            r == (PlayerCard { name, team, details, is_active: false, image: None, badge, position }),
    {
        PlayerCard { name, team, details, is_active: false, image: None, badge, position }
    }

    pub fn mark_active(&mut self, state: bool)
        ensures
            *final(self) == old(self).with_active(state),
    {
        self.is_active = state;
    }

    pub fn set_image(&mut self, image: A)
        ensures
            *final(self) == old(self).with_image(image),
    {
        self.image = Some(image);
    }

    pub fn has_image(&self) -> (r: bool)
        ensures
            r == self.image.is_some(),
    {
        self.image.is_some()
    }

    /// The colour index of the card's border: magenta when active, else white.
    pub fn border_color(&self) -> (r: u8)
        ensures
            r == if self.is_active { 127u8 } else { 255u8 },
    {
        if self.is_active {
            127
        } else {
            255
        }
    }

    /// An active card has a thick border, any other a rounded one.
    pub fn thick_border(&self) -> (r: bool)
        ensures
            r == self.is_active,
    {
        self.is_active
    }

    /// The mark shown after the name: a flag for an injured player ("i"),
    /// a warning sign for a doubtful one ("d"), none otherwise.
    pub fn status_marker(&self) -> (r: Option<&'static str>)
        ensures
            r.is_some() == (self.details.status@ == "i"@ || self.details.status@ == "d"@),
            self.details.status@ == "i"@ ==> r.unwrap()@ == "\u{1f6a9}"@,
            self.details.status@ == "d"@ ==> r.unwrap()@ == "\u{26a0}\u{fe0f}"@,
    {
        proof {
            reveal_strlit("i");
            reveal_strlit("d");
            assert("i"@[0] != "d"@[0]);
        }
        if self.details.status == String::from_str("i") {
            Some("\u{1f6a9}")
        } else if self.details.status == String::from_str("d") {
            Some("\u{26a0}\u{fe0f}")
        } else {
            None
        }
    }

    /// The line under the name on the small card.
    pub fn points_line(&self) -> (r: String)
        ensures
            r@ == "Points: "@ + decimal(self.details.event_points as int),
    {
        labelled("Points: ", int_text(self.details.event_points).as_str())
    }

    /// The lines of the detail view, one entry per line.
    pub fn detail_lines(&self) -> (r: Vec<String>)
        ensures
            r@.len() == 8,
            forall|i: int| 0 <= i < 8 ==> #[trigger] r@[i]@ == detail_lines_spec(self.name@, self.team@, self.details)[i],
    {
        let d = &self.details;
        let mut r: Vec<String> = Vec::new();
        r.push(self.name.clone());
        r.push(self.team.clone());
        r.push(labelled("Points: ", int_text(d.event_points).as_str()));
        r.push(labelled("Total Goals: ", int_text(d.goals_scored).as_str()));
        r.push(labelled("Total Assists: ", int_text(d.assists).as_str()));
        r.push(labelled("EP this: ", d.ep_this.as_str()));
        r.push(labelled("EP next : ", d.ep_next.as_str()));
        r.push(labelled("Bonus: ", int_text(d.bonus).as_str()));
        r
    }
}

/// The detail view's text: name, club, points, goals, assists, expected points
/// this and next gameweek, and bonus.
pub open spec fn detail_lines_spec(name: Seq<char>, team: Seq<char>, d: Element) -> Seq<Seq<char>> {
    seq![
        name,
        team,
        "Points: "@ + decimal(d.event_points as int),
        "Total Goals: "@ + decimal(d.goals_scored as int),
        "Total Assists: "@ + decimal(d.assists as int),
        "EP this: "@ + d.ep_this@,
        "EP next : "@ + d.ep_next@,
        "Bonus: "@ + decimal(d.bonus as int),
    ]
}

/// `c` is the card that the known pick `p` makes, its activity aside: the
/// player's details, "first second" as its name, the club's name, the pick's
/// slot, no picture yet, and a badge exactly when the club has one.
pub open spec fn card_from_pick<A>(
    c: PlayerCard<A>,
    p: Pick,
    elements: Seq<Element>,
    teams: Seq<Team>,
    badges: Map<i64, A>,
) -> bool {
    let e = picked_element(p, elements);
    &&& same_element(c.details, e)
    &&& c.name@ == e.first_name@ + seq![' '] + e.second_name@
    &&& c.team@ == teams[team_index(teams, e.team)].name@
    &&& c.position == p.position
    &&& c.image.is_none()
    &&& c.badge.is_some() == badges.contains_key(e.team_code)
}

} // verus!
