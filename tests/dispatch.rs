use std::collections::HashMap;

use tfpl::action::{action_for_event, action_for_key, effect_of, is_loggable, Action, Effect, Event, Key};
use tfpl::dispatch::{Dispatcher, Next};
use tfpl::home::Home;
use tfpl::squad::{Element, Manager, Pick, Team};

fn small_home() -> Home<String> {
    let mut elements = Vec::new();
    let mut picks = Vec::new();
    for k in 0..5i64 {
        elements.push(Element {
            id: k + 1,
            code: 100 + k,
            team: 1,
            team_code: 3,
            element_type: if k == 4 { 3 } else { k + 1 },
            first_name: "A".to_string(),
            second_name: "B".to_string(),
            event_points: 0,
            goals_scored: 0,
            assists: 0,
            ep_this: "0".to_string(),
            ep_next: "0".to_string(),
            bonus: 0,
            status: "a".to_string(),
        });
        picks.push(Pick { element: k + 1, position: if k == 4 { 12 } else { k + 1 } });
    }
    let teams = vec![Team { id: 1, code: 3, name: "C".to_string() }];
    let manager = Manager {
        name: "T".to_string(),
        player_first_name: "F".to_string(),
        player_last_name: "L".to_string(),
        player_region_name: "Wales".to_string(),
        summary_overall_rank: 0,
        summary_overall_points: 0,
        summary_event_rank: 0,
        summary_event_points: 0,
        current_event: 1,
    };
    Home::new(manager, &picks, &elements, &teams, &HashMap::new()).unwrap()
}

#[test]
fn key_table() {
    assert_eq!(action_for_key(Key::Left), Some(Action::Left));
    assert_eq!(action_for_key(Key::Right), Some(Action::Right));
    assert_eq!(action_for_key(Key::Up), Some(Action::Up));
    assert_eq!(action_for_key(Key::Down), Some(Action::Down));
    assert_eq!(action_for_key(Key::Enter), Some(Action::Enter));
    assert_eq!(action_for_key(Key::Esc), Some(Action::Escape));
    assert_eq!(action_for_key(Key::Char('q')), Some(Action::Quit));
    assert_eq!(action_for_key(Key::Char('x')), None);
    assert_eq!(action_for_key(Key::Other), None);
}

#[test]
fn events_to_actions() {
    assert_eq!(action_for_event::<String>(&Event::Quit), Some(Action::Quit));
    assert_eq!(action_for_event::<String>(&Event::Tick), Some(Action::Tick));
    assert_eq!(action_for_event::<String>(&Event::Render), Some(Action::Render));
    assert_eq!(action_for_event::<String>(&Event::Resize(80, 24)), Some(Action::Resize(80, 24)));
    assert_eq!(action_for_event::<String>(&Event::Key(Key::Enter)), Some(Action::Enter));
    assert_eq!(action_for_event(&Event::PlayerImage(1, "p".to_string())), None);
    assert_eq!(action_for_event::<String>(&Event::Other), None);
}

#[test]
fn periodic_actions_are_not_logged() {
    assert!(!is_loggable(&Action::Tick));
    assert!(!is_loggable(&Action::Render));
    assert!(is_loggable(&Action::Quit));
    assert!(is_loggable(&Action::Error("x".to_string())));
    assert!(is_loggable(&Action::GetPlayerImage(3)));
}

#[test]
fn loop_effects() {
    assert_eq!(effect_of(&Action::GetPlayerImage(7)), Effect::Fetch(7));
    assert_eq!(effect_of(&Action::Resize(10, 20)), Effect::Resize(10, 20));
    assert_eq!(effect_of(&Action::Render), Effect::Redraw);
    assert_eq!(effect_of(&Action::Tick), Effect::Nothing);
    assert_eq!(effect_of(&Action::Quit), Effect::Nothing);
}

/// Runs the drain of one cycle the way the event loop does, recording effects.
fn drain(d: &mut Dispatcher<String>) -> Vec<Effect> {
    let mut effects = Vec::new();
    while let Some(a) = d.next_action() {
        effects.push(d.apply(&a));
        d.deliver(&a);
    }
    effects
}

#[test]
fn enter_key_leads_to_one_fetch() {
    let mut d = Dispatcher::new(small_home());
    d.handle_event(Event::Key(Key::Enter));
    let effects = drain(&mut d);
    assert_eq!(effects, vec![Effect::Nothing, Effect::Fetch(100)]);
    assert!(d.home().show_player_big());
    assert_eq!(d.after_drain(), Next::Continue);
}

#[test]
fn escape_key_closes_detail_without_action() {
    let mut d = Dispatcher::new(small_home());
    d.handle_event(Event::Key(Key::Enter));
    drain(&mut d);
    d.handle_event(Event::Key(Key::Esc));
    assert_eq!(drain(&mut d), vec![Effect::Nothing]);
    assert!(!d.home().show_player_big());
}

#[test]
fn delivered_picture_stops_further_fetches() {
    let mut d = Dispatcher::new(small_home());
    d.handle_event(Event::PlayerImage(100, "p".to_string()));
    assert_eq!(drain(&mut d), Vec::<Effect>::new());
    d.handle_event(Event::Key(Key::Enter));
    assert_eq!(drain(&mut d), vec![Effect::Nothing]);
}

#[test]
fn queue_is_first_in_first_out() {
    let mut d = Dispatcher::new(small_home());
    d.push(Action::Down);
    d.push(Action::Error("e".to_string()));
    d.push(Action::Render);
    assert_eq!(d.next_action(), Some(Action::Down));
    assert_eq!(d.next_action(), Some(Action::Error("e".to_string())));
    assert_eq!(d.next_action(), Some(Action::Render));
    assert_eq!(d.next_action(), None);
}

#[test]
fn quit_key_ends_the_loop() {
    let mut d = Dispatcher::new(small_home());
    d.handle_event(Event::Key(Key::Char('q')));
    drain(&mut d);
    assert!(d.should_quit());
    assert_eq!(d.after_drain(), Next::Quit);
}

#[test]
fn suspend_comes_before_quit_and_queues_resume() {
    let mut d = Dispatcher::new(small_home());
    d.push(Action::Suspend);
    d.push(Action::Quit);
    drain(&mut d);
    assert!(d.should_suspend());
    assert_eq!(d.after_drain(), Next::Suspend);
    assert_eq!(d.next_action(), Some(Action::Resume));
    d.apply(&Action::Resume);
    assert!(!d.should_suspend());
    assert_eq!(d.after_drain(), Next::Quit);
}

#[test]
fn arrows_move_through_the_dispatcher() {
    let mut d = Dispatcher::new(small_home());
    d.handle_event(Event::Key(Key::Down));
    d.handle_event(Event::Key(Key::Down));
    d.handle_event(Event::Resize(80, 24));
    assert_eq!(drain(&mut d), vec![Effect::Nothing, Effect::Nothing, Effect::Resize(80, 24)]);
    assert_eq!(d.home().coordinate(), (2, 0));
}
