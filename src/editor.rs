use crate::command::{command_of, Command, InputEvent, Key, Modifiers};
use crate::geometry::Position;
use crate::view::{sat_sub, title_of, ViewState};
use vstd::prelude::*;

verus! {

/// An editor's state, as plain values.
pub struct EditorState {
    pub quit: bool,
    pub view: ViewState,
}

impl EditorState {
    /// The state after one input event: a quit command raises the flag, any
    /// other command goes to the view, and an event that gives no command is
    /// ignored.
    pub open spec fn after_event(self, event: InputEvent) -> EditorState {
        match command_of(event) {
            Ok(Command::Quit) => EditorState { quit: true, ..self },
            Ok(command) => EditorState { view: self.view.after_command(command), ..self },
            Err(_) => self,
        }
    }
}

/// The decisions of the editing loop: what each event does, and what each
/// refresh draws.
pub struct Editor {
    quit: bool,
    view: crate::view::View,
}

impl Editor {
    pub closed spec fn state(&self) -> EditorState {
        EditorState { quit: self.quit, view: self.view.state() }
    }

    pub open spec fn wf(&self) -> bool {
        self.state().view.wf()
    }

    /// An editor on `view`, not quitting.
    pub fn new(view: crate::view::View) -> (r: Editor)
        requires
            view.wf(),
        ensures
            r.state() == (EditorState { quit: false, view: view.state() }),
            r.wf(),
    {
        Editor { quit: false, view }
    }

    pub fn should_quit(&self) -> (r: bool)
        ensures
            r == self.state().quit,
    {
        self.quit
    }

    /// Handles one input event.
    pub fn evaluate_event(&mut self, event: InputEvent)
        requires
            old(self).wf(),
        ensures
            final(self).state() == old(self).state().after_event(event),
            final(self).wf(),
    {
        match Command::try_from(event) {
            Ok(Command::Quit) => {
                self.quit = true;
            },
            Ok(command) => {
                assert(!(command is Insert));
                self.view.command_handler(command);
            },
            Err(_) => {},
        }
    }

    /// What a refresh of the screen shows: the rows that need drawing, top to
    /// bottom, and the screen cell of the cursor.
    pub fn refresh_screen(&mut self, name: &str, version: &str) -> (r: (Vec<String>, Position))
        requires
            old(self).wf(),
        ensures
            r.0@.map_values(|s: String| s@) == old(self).state().view.frame(
                title_of(name@, version@),
            ),
            r.1 == (Position {
                col: sat_sub(
                    old(self).state().view.position().col,
                    old(self).state().view.offset.col,
                ),
                row: sat_sub(
                    old(self).state().view.position().row,
                    old(self).state().view.offset.row,
                ),
            }),
            final(self).state() == (EditorState {
                view: old(self).state().view.after_render(),
                ..old(self).state()
            }),
            final(self).wf(),
    {
        let rows = self.view.render(name, version);
        let caret = self.view.caret_position();
        (rows, caret)
    }
}

/// Control and `q` is the quit command; after it the editor is quitting with
/// its view unchanged, so that a view rendered before the event has nothing
/// left to draw in the refresh that ends the loop.
pub proof fn lemma_quit_ends_loop(before: EditorState, modifiers: Modifiers, title: Seq<char>)
    requires
        modifiers.is_control_only(),
    ensures
        command_of(InputEvent::Key { key: Key::Char('q'), modifiers }) == Ok::<
            Command,
            crate::command::DecodeError,
        >(Command::Quit),
        before.after_event(InputEvent::Key { key: Key::Char('q'), modifiers }).quit,
        before.after_event(InputEvent::Key { key: Key::Char('q'), modifiers }).view == before.view,
        ({
            let rendered = EditorState { view: before.view.after_render(), ..before };
            rendered.after_event(
                InputEvent::Key { key: Key::Char('q'), modifiers },
            ).view.frame(title) == Seq::<Seq<char>>::empty()
        }),
{
}

} // verus!
