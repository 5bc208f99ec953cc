use vstd::prelude::*;

use std::collections::VecDeque;

use crate::action::{action_effect, action_for_event, effect_of, event_action, queued, Action, Effect, Event};
use crate::board::Board;
use crate::home::Home;

verus! {

/// What the loop does once the queue has drained.
#[derive(Clone, Copy, Debug, PartialEq, Eq, Structural)]
pub enum Next {
    /// Wait for the next event.
    Continue,
    /// Release the terminal, suspend the process, then take the terminal again.
    Suspend,
    /// Release the terminal and leave the loop.
    Quit,
}

/// The dispatcher's state as a value: the grid, the queue of actions not yet
/// handled (head first), and the two flags that the loop obeys.
pub struct Loop<A> {
    pub board: Board<A>,
    pub queue: Seq<Action>,
    pub should_quit: bool,
    pub should_suspend: bool,
}

/// The decisions of the event loop. It owns the component tree and the FIFO
/// queue of actions; the code that drives the terminal feeds it events, takes
/// actions off it one by one, performs their effects and hands them back.
pub struct Dispatcher<A> {
    home: Home<A>,
    actions: VecDeque<Action>,
    should_quit: bool,
    should_suspend: bool,
}

impl<A> View for Dispatcher<A> {
    type V = Loop<A>;

    closed spec fn view(&self) -> Loop<A> {
        Loop {
            board: self.home@,
            queue: self.actions@,
            should_quit: self.should_quit,
            should_suspend: self.should_suspend,
        }
    }
}

impl<A> Dispatcher<A> {
    pub closed spec fn wf(&self) -> bool {
        self.home@.wf()
    }

    pub fn new(home: Home<A>) -> (r: Self)
        requires
            home@.wf(),
        ensures
            r.wf(),
            r@ == (Loop { board: home@, queue: Seq::empty(), should_quit: false, should_suspend: false }),
    {
        Dispatcher { home, actions: VecDeque::new(), should_quit: false, should_suspend: false }
    }

    pub fn home(&self) -> (r: &Home<A>)
        ensures
            r@ == self@.board,
    {
        &self.home
    }

    pub fn should_quit(&self) -> (r: bool)
        ensures
            r == self@.should_quit,
    {
        self.should_quit
    }

    pub fn should_suspend(&self) -> (r: bool)
        ensures
            r == self@.should_suspend,
    {
        self.should_suspend
    }

    /// Queues an action that arose outside the tree (a failed draw, a resume).
    pub fn push(&mut self, action: Action)
        ensures
            final(self)@ == (Loop { queue: old(self)@.queue.push(action), ..old(self)@ }),
            final(self).wf() == old(self).wf(),
    {
        self.actions.push_back(action);
    }

    /// Takes one raw event: queues the action that the loop makes of it, then
    /// hands the event to the component tree and queues its answer.
    pub fn handle_event(&mut self, event: Event<A>)
        requires
            old(self).wf(),
        ensures
            final(self).wf(),
            final(self)@.queue == old(self)@.queue + queued(event_action(event)),
            final(self)@.board == (match event {
                Event::PlayerImage(code, image) => old(self)@.board.deliver(code, image),
                _ => old(self)@.board,
            }),
            final(self)@.should_quit == old(self)@.should_quit,
            final(self)@.should_suspend == old(self)@.should_suspend,
    {
        match action_for_event(&event) {
            Some(a) => self.actions.push_back(a),
            None => {},
        }
        match self.home.handle_events(event) {
            Some(a) => self.actions.push_back(a),
            None => {},
        }
        assert(self.actions@ =~= old(self)@.queue + queued(event_action(event)));
    }

    /// The next queued action, head first.
    pub fn next_action(&mut self) -> (r: Option<Action>)
        ensures
            final(self).wf() == old(self).wf(),
            old(self)@.queue.len() == 0 ==> r.is_none() && final(self)@ == old(self)@,
            old(self)@.queue.len() > 0 ==> r == Some(old(self)@.queue[0]) && final(self)@ == (Loop {
                queue: old(self)@.queue.skip(1),
                ..old(self)@
            }),
    {
        let r = self.actions.pop_front();
        proof {
            if old(self)@.queue.len() > 0 {
                assert(self.actions@ =~= old(self)@.queue.skip(1));
            }
        }
        r
    }

    /// The loop's own part of an action: the quit and suspend flags, and the
    /// outside work that it asks for.
    pub fn apply(&mut self, action: &Action) -> (r: Effect)
        ensures
            final(self).wf() == old(self).wf(),
            r == action_effect(*action),
            final(self)@.board == old(self)@.board,
            final(self)@.queue == old(self)@.queue,
            final(self)@.should_quit == (old(self)@.should_quit || *action is Quit),
            final(self)@.should_suspend == (match *action {
                Action::Suspend => true,
                Action::Resume => false,
                _ => old(self)@.should_suspend,
            }),
    {
        match action {
            Action::Quit => self.should_quit = true,
            Action::Suspend => self.should_suspend = true,
            Action::Resume => self.should_suspend = false,
            _ => {},
        }
        effect_of(action)
    }

    /// Hands an action to the component tree and queues its answer.
    pub fn deliver(&mut self, action: &Action)
        requires
            old(self).wf(),
        ensures
            final(self).wf(),
            final(self)@.board == old(self)@.board.step(*action),
            final(self)@.queue == old(self)@.queue + queued(old(self)@.board.reply(*action)),
            final(self)@.should_quit == old(self)@.should_quit,
            final(self)@.should_suspend == old(self)@.should_suspend,
    {
        match self.home.update(action) {
            Some(a) => self.actions.push_back(a),
            None => {},
        }
        assert(self.actions@ =~= old(self)@.queue + queued(old(self)@.board.reply(*action)));
    }

    /// What to do once the queue has drained: a pending suspend comes first and
    /// queues the resume that follows it; then a requested quit.
    pub fn after_drain(&mut self) -> (r: Next)
        ensures
            final(self).wf() == old(self).wf(),
            final(self)@.board == old(self)@.board,
            final(self)@.should_quit == old(self)@.should_quit,
            final(self)@.should_suspend == old(self)@.should_suspend,
            old(self)@.should_suspend ==> r == Next::Suspend && final(self)@.queue == old(self)@.queue.push(
                Action::Resume,
            ),
            !old(self)@.should_suspend ==> final(self)@.queue == old(self)@.queue && r == (if old(self)@.should_quit {
                Next::Quit
            } else {
                Next::Continue
            }),
    {
        if self.should_suspend {
            self.actions.push_back(Action::Resume);
            Next::Suspend
        } else if self.should_quit {
            Next::Quit
        } else {
            Next::Continue
        }
    }
}

} // verus!
