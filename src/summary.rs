use vstd::prelude::*;

use crate::squad::Manager;
use crate::text::{
    ascii_lower, comma_text, decimal, emoji_by_shortcode, emoji_for, int_text, lower_ascii, with_commas_spec,
};

verus! {

/// `label` followed by `value`.
pub fn labelled(label: &str, value: &str) -> (r: String)
    ensures
        r@ == label@ + value@,
{
    let mut s = String::from_str(label);
    s.append(value);
    s
}

/// The flag to show for a found emoji, or "?" when there is none.
pub open spec fn flag_or_unknown_spec(found: Option<Seq<char>>) -> Seq<char> {
    match found {
        Some(e) => e,
        None => "?"@,
    }
}

/// The flag of a manager's region: the emoji whose shortcode is the region's
/// name in ASCII small letters, or "?".
pub open spec fn flag_of(region: Seq<char>) -> Seq<char> {
    flag_or_unknown_spec(emoji_for(ascii_lower(region)))
}

pub fn flag_or_unknown(found: Option<&'static str>) -> (r: &'static str)
    ensures
        r@ == flag_or_unknown_spec(
            match found {
                Some(e) => Some(e@),
                None => None,
            },
        ),
{
    match found {
        Some(e) => e,
        None => "?",
    }
}

/// The rule between the panel's blocks.
pub open spec fn rule_line() -> Seq<char> {
    "-------------------------"@
}

/// The text of the manager panel, one entry per line.
pub open spec fn summary_lines(m: Manager) -> Seq<Seq<char>> {
    seq![
        m.name@,
        "("@ + m.player_first_name@ + " "@ + m.player_last_name@ + ", "@ + flag_of(m.player_region_name@) + ")"@,
        rule_line(),
        "Overall Rank: "@ + with_commas_spec(m.summary_overall_rank as int),
        "Overall Points: "@ + decimal(m.summary_overall_points as int),
        rule_line(),
        "GW Rank: "@ + with_commas_spec(m.summary_event_rank as int),
        "GW Points: "@ + decimal(m.summary_event_points as int),
    ]
}

/// The panel that shows who manages the squad and how they stand.
pub struct ManagerSummary {
    pub details: Manager,
}

impl ManagerSummary {
    pub fn new(details: Manager) -> (r: Self)
        ensures
            r.details == details,
    {
        ManagerSummary { details }
    }

    pub fn get_player_flag_emoji(&self) -> (r: &'static str)
        ensures
            r@ == flag_of(self.details.player_region_name@),
    {
        let code = lower_ascii(self.details.player_region_name.as_str());
        flag_or_unknown(emoji_by_shortcode(code.as_str()))
    }

    /// The panel's lines: the team name, the manager's name and flag, then the
    /// overall and gameweek rank (grouped by commas) and points.
    pub fn lines(&self) -> (r: Vec<String>)
        ensures
            r@.len() == 8,
            forall|i: int| 0 <= i < 8 ==> #[trigger] r@[i]@ == summary_lines(self.details)[i],
    {
        let m = &self.details;
        let mut who = String::from_str("(");
        who.append(m.player_first_name.as_str());
        who.append(" ");
        who.append(m.player_last_name.as_str());
        who.append(", ");
        who.append(self.get_player_flag_emoji());
        who.append(")");
        let mut r: Vec<String> = Vec::new();
        r.push(m.name.clone());
        r.push(who);
        r.push(String::from_str("-------------------------"));
        r.push(labelled("Overall Rank: ", comma_text(m.summary_overall_rank).as_str()));
        r.push(labelled("Overall Points: ", int_text(m.summary_overall_points).as_str()));
        r.push(String::from_str("-------------------------"));
        r.push(labelled("GW Rank: ", comma_text(m.summary_event_rank).as_str()));
        r.push(labelled("GW Points: ", int_text(m.summary_event_points).as_str()));
        r
    }
}

} // verus!
