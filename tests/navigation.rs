use std::collections::HashMap;

use tfpl::action::{Action, Event};
use tfpl::home::Home;
use tfpl::squad::{Element, Manager, Pick, Team};

fn element(id: i64, element_type: i64, team: i64) -> Element {
    Element {
        id,
        code: 1000 + id,
        team,
        team_code: 50 + team,
        element_type,
        first_name: format!("First{}", id),
        second_name: format!("Second{}", id),
        event_points: id,
        goals_scored: 0,
        assists: 0,
        ep_this: "1.0".to_string(),
        ep_next: "2.0".to_string(),
        bonus: 0,
        status: "a".to_string(),
    }
}

fn manager() -> Manager {
    Manager {
        name: "Team".to_string(),
        player_first_name: "Ann".to_string(),
        player_last_name: "Lee".to_string(),
        player_region_name: "England".to_string(),
        summary_overall_rank: 1,
        summary_overall_points: 2,
        summary_event_rank: 3,
        summary_event_points: 4,
        current_event: 5,
    }
}

/// A grid whose groups hold `sizes` cards (the last group is the bench).
fn grid(sizes: [usize; 5]) -> Home<String> {
    let mut elements = Vec::new();
    let mut picks = Vec::new();
    let mut id = 1;
    for (g, n) in sizes.iter().enumerate() {
        for k in 0..*n {
            let role = if g == 4 { 3 } else { g as i64 + 1 };
            elements.push(element(id, role, 1));
            let position = if g == 4 { 12 + k as i64 } else { 1 };
            picks.push(Pick { element: id, position });
            id += 1;
        }
    }
    let teams = vec![Team { id: 1, code: 51, name: "Club".to_string() }];
    Home::new(manager(), &picks, &elements, &teams, &HashMap::new()).unwrap()
}

fn active_count(h: &Home<String>) -> usize {
    h.groups().iter().map(|g| g.players.iter().filter(|c| c.is_active).count()).sum()
}

fn images(h: &Home<String>) -> Vec<Vec<Option<String>>> {
    h.groups().iter().map(|g| g.players.iter().map(|c| c.image.clone()).collect()).collect()
}

#[test]
fn down_clamps_at_last_group() {
    let mut h = grid([2, 11, 11, 11, 4]);
    assert_eq!(h.coordinate(), (0, 0));
    for _ in 0..5 {
        assert_eq!(h.update(&Action::Down), None);
    }
    assert_eq!(h.coordinate(), (4, 0));
    assert_eq!(active_count(&h), 1);
    assert!(h.groups()[4].players[0].is_active);
}

#[test]
fn right_clamps_within_group() {
    let mut h = grid([2, 11, 11, 11, 4]);
    h.update(&Action::Down);
    assert_eq!(h.coordinate(), (1, 0));
    for _ in 0..15 {
        h.update(&Action::Right);
    }
    assert_eq!(h.coordinate(), (1, 10));
    assert!(h.groups()[1].players[10].is_active);
    assert_eq!(active_count(&h), 1);
}

#[test]
fn confirm_requests_picture_once_and_escape_closes() {
    let mut h = grid([2, 11, 11, 11, 4]);
    assert!(!h.show_player_big());
    let code = h.active_card().details.code;
    assert_eq!(h.update(&Action::Enter), Some(Action::GetPlayerImage(code)));
    assert!(h.show_player_big());
    assert_eq!(h.update(&Action::Escape), None);
    assert!(!h.show_player_big());
}

#[test]
fn confirm_after_failed_fetch_requests_again() {
    let mut h = grid([2, 11, 11, 11, 4]);
    let code = h.active_card().details.code;
    assert_eq!(h.update(&Action::Enter), Some(Action::GetPlayerImage(code)));
    // the fetch fails: nothing is delivered
    assert_eq!(h.update(&Action::Escape), None);
    assert_eq!(h.update(&Action::Enter), Some(Action::GetPlayerImage(code)));
}

#[test]
fn confirm_with_picture_requests_nothing() {
    let mut h = grid([2, 11, 11, 11, 4]);
    let code = h.active_card().details.code;
    h.deliver_image(code, "picture".to_string());
    assert_eq!(h.update(&Action::Enter), None);
    assert!(h.show_player_big());
}

#[test]
fn left_and_up_clamp_at_start() {
    let mut h = grid([2, 11, 11, 11, 4]);
    h.update(&Action::Left);
    assert_eq!(h.coordinate(), (0, 0));
    h.update(&Action::Up);
    assert_eq!(h.coordinate(), (0, 0));
    assert!(h.groups()[0].players[0].is_active);
    assert_eq!(active_count(&h), 1);
}

#[test]
fn right_and_down_clamp_at_end() {
    let mut h = grid([2, 11, 11, 11, 1]);
    for _ in 0..4 {
        h.update(&Action::Down);
    }
    assert_eq!(h.coordinate(), (4, 0));
    h.update(&Action::Right);
    assert_eq!(h.coordinate(), (4, 0));
    h.update(&Action::Down);
    assert_eq!(h.coordinate(), (4, 0));
}

#[test]
fn down_from_last_card_of_longer_last_group_starts_it_over() {
    let mut h = grid([2, 11, 11, 11, 4]);
    for _ in 0..4 {
        h.update(&Action::Down);
    }
    for _ in 0..3 {
        h.update(&Action::Right);
    }
    assert_eq!(h.coordinate(), (4, 3));
    h.update(&Action::Right);
    assert_eq!(h.coordinate(), (4, 3));
    h.update(&Action::Down);
    assert_eq!(h.coordinate(), (4, 0));
}

#[test]
fn up_moves_to_first_card_of_previous_group() {
    let mut h = grid([2, 11, 11, 11, 4]);
    h.update(&Action::Down);
    h.update(&Action::Right);
    h.update(&Action::Right);
    assert_eq!(h.coordinate(), (1, 2));
    h.update(&Action::Up);
    assert_eq!(h.coordinate(), (0, 0));
    h.update(&Action::Right);
    h.update(&Action::Left);
    assert_eq!(h.coordinate(), (0, 0));
}

#[test]
fn random_walks_keep_one_active_card_in_bounds() {
    let sizes = [2, 11, 11, 11, 4];
    let moves = [Action::Left, Action::Right, Action::Up, Action::Down];
    let mut seed: u64 = 12345;
    for _walk in 0..50 {
        let mut h = grid(sizes);
        for _step in 0..200 {
            seed = seed.wrapping_mul(6364136223846793005).wrapping_add(1442695040888963407);
            let a = &moves[((seed >> 33) % 4) as usize];
            assert_eq!(h.update(a), None);
            let (g, i) = h.coordinate();
            assert!(g < sizes.len());
            assert!(i < sizes[g]);
            assert_eq!(active_count(&h), 1);
            assert!(h.groups()[g].players[i].is_active);
        }
    }
}

#[test]
fn picture_goes_to_its_card() {
    let mut h = grid([2, 11, 11, 11, 4]);
    let code = h.groups()[2].players[5].details.code;
    assert!(!h.groups()[2].players[5].has_image());
    h.handle_events(Event::PlayerImage(code, "p".to_string()));
    assert!(h.groups()[2].players[5].has_image());
    assert_eq!(h.groups()[2].players[5].image, Some("p".to_string()));
    let with_picture: usize = images(&h).iter().map(|g| g.iter().filter(|i| i.is_some()).count()).sum();
    assert_eq!(with_picture, 1);
}

#[test]
fn delivering_twice_equals_delivering_once() {
    let mut once = grid([2, 11, 11, 11, 4]);
    let mut twice = grid([2, 11, 11, 11, 4]);
    let code = once.groups()[3].players[1].details.code;
    once.deliver_image(code, "p".to_string());
    twice.deliver_image(code, "p".to_string());
    twice.deliver_image(code, "p".to_string());
    assert_eq!(images(&once), images(&twice));
    assert_eq!(once.coordinate(), twice.coordinate());
}

#[test]
fn unknown_code_changes_nothing() {
    let mut h = grid([2, 11, 11, 11, 4]);
    let before = images(&h);
    h.handle_events(Event::PlayerImage(-7, "p".to_string()));
    assert_eq!(images(&h), before);
    assert_eq!(h.coordinate(), (0, 0));
    assert_eq!(active_count(&h), 1);
}

#[test]
fn other_events_leave_grid_alone() {
    let mut h = grid([2, 11, 11, 11, 4]);
    assert_eq!(h.handle_events(Event::Tick), None);
    assert_eq!(h.handle_events(Event::Key(tfpl::action::Key::Down)), None);
    assert_eq!(h.coordinate(), (0, 0));
    assert_eq!(h.update(&Action::Tick), None);
    assert_eq!(h.coordinate(), (0, 0));
}
