use std::collections::HashMap;

use tfpl::home::{organise_players, Home};
use tfpl::squad::{Element, Manager, Pick, SquadError, Team};

fn element(id: i64, element_type: i64, team: i64) -> Element {
    Element {
        id,
        code: 1000 + id,
        team,
        team_code: 50 + team,
        element_type,
        first_name: format!("First{}", id),
        second_name: format!("Second{}", id),
        event_points: 0,
        goals_scored: 0,
        assists: 0,
        ep_this: "0.0".to_string(),
        ep_next: "0.0".to_string(),
        bonus: 0,
        status: "a".to_string(),
    }
}

fn manager() -> Manager {
    Manager {
        name: "Team".to_string(),
        player_first_name: "Ann".to_string(),
        player_last_name: "Lee".to_string(),
        player_region_name: "England".to_string(),
        summary_overall_rank: 1,
        summary_overall_points: 2,
        summary_event_rank: 3,
        summary_event_points: 4,
        current_event: 5,
    }
}

fn teams() -> Vec<Team> {
    vec![
        Team { id: 1, code: 51, name: "Arsenal".to_string() },
        Team { id: 2, code: 52, name: "Brentford".to_string() },
    ]
}

/// A full squad: one goalkeeper, four defenders, four midfielders, two
/// forwards in slots 1 to 11, and four on the bench in slots 12 to 15.
fn full_squad() -> (Vec<Pick>, Vec<Element>) {
    let roles = [1, 2, 2, 2, 2, 3, 3, 3, 3, 4, 4, 1, 2, 3, 4];
    let mut picks = Vec::new();
    let mut elements = Vec::new();
    for (k, role) in roles.iter().enumerate() {
        let id = k as i64 + 1;
        elements.push(element(id, *role, 1 + (k as i64 % 2)));
        picks.push(Pick { element: id, position: id });
    }
    (picks, elements)
}

#[test]
fn squad_is_grouped_by_role_and_bench() {
    let (picks, elements) = full_squad();
    let groups = organise_players::<String>(&picks, &elements, &teams(), &HashMap::new()).unwrap();
    let names: Vec<&str> = groups.iter().map(|g| g.category.as_str()).collect();
    assert_eq!(names, vec!["Goalkeepers", "Defenders", "Midfielders", "Forwards", "Bench"]);
    let ids: Vec<Vec<i64>> = groups.iter().map(|g| g.players.iter().map(|c| c.details.id).collect()).collect();
    assert_eq!(
        ids,
        vec![vec![1], vec![5, 4, 3, 2], vec![9, 8, 7, 6], vec![11, 10], vec![15, 14, 13, 12]]
    );
}

#[test]
fn card_takes_names_club_and_slot() {
    let (picks, elements) = full_squad();
    let groups = organise_players::<String>(&picks, &elements, &teams(), &HashMap::new()).unwrap();
    let card = &groups[3].players[0];
    assert_eq!(card.name, "First11 Second11");
    assert_eq!(card.team, "Arsenal");
    assert_eq!(card.position, 11);
    assert!(!card.is_active);
    assert!(!card.has_image());
    let card = &groups[1].players[1];
    assert_eq!(card.details.id, 4);
    assert_eq!(card.team, "Brentford");
}

#[test]
fn badge_follows_club_code() {
    let (picks, elements) = full_squad();
    let mut badges = HashMap::new();
    badges.insert(52, "brentford badge".to_string());
    let groups = organise_players(&picks, &elements, &teams(), &badges).unwrap();
    for g in groups.iter() {
        for c in g.players.iter() {
            if c.details.team_code == 52 {
                assert_eq!(c.badge, Some("brentford badge".to_string()));
            } else {
                assert_eq!(c.badge, None);
            }
        }
    }
}

#[test]
fn unknown_player_is_reported() {
    let (mut picks, elements) = full_squad();
    picks[3].element = 99;
    picks[7].element = 98;
    let r = organise_players::<String>(&picks, &elements, &teams(), &HashMap::new());
    assert!(matches!(r, Err(SquadError::UnknownPlayer(99))));
}

#[test]
fn unknown_club_is_reported() {
    let (picks, mut elements) = full_squad();
    elements[4].team = 7;
    let r = organise_players::<String>(&picks, &elements, &teams(), &HashMap::new());
    assert!(matches!(r, Err(SquadError::UnknownTeam(7))));
}

#[test]
fn empty_group_is_reported() {
    let (picks, mut elements) = full_squad();
    elements[9].element_type = 3;
    elements[10].element_type = 3;
    let r = Home::<String>::new(manager(), &picks, &elements, &teams(), &HashMap::new());
    assert!(matches!(r, Err(SquadError::EmptyGroup(3))));
}

#[test]
fn pick_of_no_role_is_left_out() {
    let (picks, mut elements) = full_squad();
    elements[5].element_type = 9;
    let groups = organise_players::<String>(&picks, &elements, &teams(), &HashMap::new()).unwrap();
    let total: usize = groups.iter().map(|g| g.players.len()).sum();
    assert_eq!(total, 14);
    assert_eq!(groups[2].players.len(), 3);
}

#[test]
fn later_duplicate_player_wins() {
    let (picks, mut elements) = full_squad();
    let mut twin = element(1, 1, 2);
    twin.first_name = "Twin".to_string();
    elements.push(twin);
    let groups = organise_players::<String>(&picks, &elements, &teams(), &HashMap::new()).unwrap();
    assert_eq!(groups[0].players[0].name, "Twin Second1");
    assert_eq!(groups[0].players[0].team, "Brentford");
}

#[test]
fn new_home_starts_at_first_card() {
    let (picks, elements) = full_squad();
    let h = Home::<String>::new(manager(), &picks, &elements, &teams(), &HashMap::new()).unwrap();
    assert_eq!(h.coordinate(), (0, 0));
    assert!(!h.show_player_big());
    assert!(h.active_card().is_active);
    assert_eq!(h.active_card().details.id, 1);
    let active: usize = h.groups().iter().map(|g| g.players.iter().filter(|c| c.is_active).count()).sum();
    assert_eq!(active, 1);
    assert_eq!(h.manager_summary().details.name, "Team");
}

#[test]
fn index_routes_every_card() {
    let (picks, elements) = full_squad();
    let mut h = Home::<String>::new(manager(), &picks, &elements, &teams(), &HashMap::new()).unwrap();
    for e in elements.iter() {
        h.deliver_image(e.code, format!("p{}", e.id));
    }
    for g in h.groups().iter() {
        for c in g.players.iter() {
            assert_eq!(c.image, Some(format!("p{}", c.details.id)));
        }
    }
}
