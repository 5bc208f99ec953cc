use vstd::prelude::*;

verus! {

/// The abstract commands that flow between the dispatcher and the component tree.
#[derive(Clone, Debug, PartialEq, Eq)]
pub enum Action {
    Tick,
    Render,
    Resize(u16, u16),
    Quit,
    Suspend,
    Resume,
    Left,
    Right,
    Up,
    Down,
    Enter,
    Escape,
    GetPlayerImage(i64),
    Error(String),
}

/// The keys that the dashboard tells apart.
#[derive(Clone, Copy, Debug, PartialEq, Eq, Structural)]
pub enum Key {
    Enter,
    Esc,
    Left,
    Right,
    Up,
    Down,
    Char(char),
    Other,
}

/// What enters the loop from outside the component tree. `A` is the
/// picture that a finished image fetch delivers.
pub enum Event<A> {
    Quit,
    Tick,
    Render,
    Resize(u16, u16),
    Key(Key),
    PlayerImage(i64, A),
    Other,
}

/// The action that the loop itself makes of a raw event: quit, tick, render
/// and resize pass through; arrows, Enter, Esc and `q` are looked up in the
/// key table; any other key, and a delivered picture, make none.
pub open spec fn event_action<A>(event: Event<A>) -> Option<Action> {
    match event {
        Event::Quit => Some(Action::Quit),
        Event::Tick => Some(Action::Tick),
        Event::Render => Some(Action::Render),
        Event::Resize(w, h) => Some(Action::Resize(w, h)),
        Event::Key(k) => key_action(k),
        _ => None,
    }
}

/// The key table.
pub open spec fn key_action(k: Key) -> Option<Action> {
    match k {
        Key::Left => Some(Action::Left),
        Key::Right => Some(Action::Right),
        Key::Up => Some(Action::Up),
        Key::Down => Some(Action::Down),
        Key::Enter => Some(Action::Enter),
        Key::Esc => Some(Action::Escape),
        Key::Char(c) => if c == 'q' {
            Some(Action::Quit)
        } else {
            None
        },
        Key::Other => None,
    }
}

pub fn action_for_key(k: Key) -> (r: Option<Action>)
    ensures
        r == key_action(k),
{
    match k {
        Key::Left => Some(Action::Left),
        Key::Right => Some(Action::Right),
        Key::Up => Some(Action::Up),
        Key::Down => Some(Action::Down),
        Key::Enter => Some(Action::Enter),
        Key::Esc => Some(Action::Escape),
        Key::Char(c) => if c == 'q' {
            Some(Action::Quit)
        } else {
            None
        },
        Key::Other => None,
    }
}

pub fn action_for_event<A>(event: &Event<A>) -> (r: Option<Action>)
    ensures
        r == event_action(*event),
{
    match event {
        Event::Quit => Some(Action::Quit),
        Event::Tick => Some(Action::Tick),
        Event::Render => Some(Action::Render),
        Event::Resize(w, h) => Some(Action::Resize(*w, *h)),
        Event::Key(k) => action_for_key(*k),
        _ => None,
    }
}

/// Every action is worth a line in the diagnostic log but the periodic ones.
pub fn is_loggable(action: &Action) -> (r: bool)
    ensures
        r == !(*action is Tick || *action is Render),
{
    match action {
        Action::Tick | Action::Render => false,
        _ => true,
    }
}

/// The work outside the component tree that the loop owes an action.
#[derive(Clone, Copy, Debug, PartialEq, Eq, Structural)]
pub enum Effect {
    Nothing,
    /// Start a background fetch of this player's picture.
    Fetch(i64),
    /// Resize the terminal to this width and height, then redraw.
    Resize(u16, u16),
    /// Redraw every component.
    Redraw,
}

pub open spec fn action_effect(action: Action) -> Effect {
    match action {
        Action::GetPlayerImage(code) => Effect::Fetch(code),
        Action::Resize(w, h) => Effect::Resize(w, h),
        Action::Render => Effect::Redraw,
        _ => Effect::Nothing,
    }
}

pub fn effect_of(action: &Action) -> (r: Effect)
    ensures
        r == action_effect(*action),
{
    match action {
        Action::GetPlayerImage(code) => Effect::Fetch(*code),
        Action::Resize(w, h) => Effect::Resize(*w, *h),
        Action::Render => Effect::Redraw,
        _ => Effect::Nothing,
    }
}

/// The sequence that holds the action, if any.
pub open spec fn queued(a: Option<Action>) -> Seq<Action> {
    match a {
        Some(a) => seq![a],
        None => Seq::empty(),
    }
}

} // verus!
