//! The application's event-handling state, kept apart from the event
//! loop that feeds it.

use vstd::prelude::*;

verus! {

/// A key the user pressed, reduced to what the application reacts to.
#[derive(Clone, Copy, Debug, PartialEq, Eq, Structural)]
pub enum Key {
    Char(char),
    Esc,
    Other,
}

/// One event handed to the application by its event loop: a key press,
/// or anything else.
#[derive(Clone, Copy, Debug, PartialEq, Eq, Structural)]
pub enum InputEvent {
    KeyPress(Key),
    Other,
}

/// `event` asks the application to quit: a press of `q` or of escape.
pub open spec fn is_quit_event(event: InputEvent) -> bool {
    match event {
        InputEvent::KeyPress(key) => match key {
            Key::Char(c) => c == 'q',
            Key::Esc => true,
            Key::Other => false,
        },
        InputEvent::Other => false,
    }
}

/// The application's state between two turns of its event loop.
#[derive(Clone, Copy, Debug, PartialEq, Eq, Structural)]
pub struct App {
    pub should_quit: bool,
    pub is_playing: bool,
}

impl Default for App {
    /// A fresh application: not quitting, not playing.
    fn default() -> (a: App)
        ensures
            !a.should_quit,
            !a.is_playing,
    {
        App { should_quit: false, is_playing: false }
    }
}

impl App {
    /// React to one event: a quit key raises the quit flag, anything
    /// else changes nothing. The quit flag never goes back down.
    pub fn handle_event(&mut self, event: &InputEvent)
        ensures
            final(self).should_quit == (old(self).should_quit || is_quit_event(*event)),
            final(self).is_playing == old(self).is_playing,
    {
        match event {
            InputEvent::KeyPress(key) => {
                match key {
                    Key::Char(c) => {
                        if *c == 'q' {
                            self.should_quit = true;
                        }
                    },
                    Key::Esc => {
                        self.should_quit = true;
                    },
                    Key::Other => {},
                }
            },
            InputEvent::Other => {},
        }
    }

    /// React to one playback tick. A tick changes nothing yet; it takes
    /// `&self`, so it cannot.
    pub fn handle_tick(&self)
    {
    }
}

} // verus!
