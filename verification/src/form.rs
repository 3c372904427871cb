//! The form in which a new position is entered.

use crate::config::{has_name, names_unique, ConfigData, Creation, PositionView};
use vstd::prelude::*;
use vstd::string::StringExecFns;

verus! {

/// The height that the form proposes, in tenths of a millimetre.
pub const TEMPLATE_HEIGHT: u16 = 7000;

/// What the form for a new position holds.
#[derive(Clone, Debug, PartialEq, Eq)]
pub struct MyApp {
    /// The name typed in so far.
    pub name: String,
    /// The height chosen so far.
    pub height: u16,
    /// Whether the complaint about a name that is taken is on show.
    pub error_dialog_open: bool,
}

impl Default for MyApp {
    /// The form as it opens: a template name, the template height, no
    /// complaint.
    fn default() -> (app: MyApp)
        ensures
            app.name@ == "Template name"@,
            app.height == TEMPLATE_HEIGHT,
            !app.error_dialog_open,
    {
        MyApp {
            name: String::from_str("Template name"),
            height: TEMPLATE_HEIGHT,
            error_dialog_open: false,
        }
    }
}

impl MyApp {
    /// Takes the press of the button that adds the position.
    ///
    /// Where no position of the name is saved yet, the position is saved
    /// with the chosen height and without a shortcut, and the form can be
    /// closed. Where one is, nothing is saved and the complaint is put on
    /// show.
    pub fn submit(&mut self, config: &mut ConfigData) -> (saved: bool)
        ensures
            final(self).name == old(self).name,
            final(self).height == old(self).height,
            final(config)@.local_name == old(config)@.local_name,
            saved == !has_name(old(config)@.saved_positions, old(self).name@),
            if saved {
                &&& final(self).error_dialog_open == old(self).error_dialog_open
                &&& final(config)@.saved_positions == old(config)@.saved_positions.push(
                    PositionView {
                        name: old(self).name@,
                        value: old(self).height as int,
                        shortcut: None,
                    },
                )
            } else {
                &&& final(self).error_dialog_open
                &&& final(config)@.saved_positions == old(config)@.saved_positions
            },
            names_unique(old(config)@.saved_positions) ==> names_unique(
                final(config)@.saved_positions,
            ),
    {
        match config.create_new_elem(self.name.as_str(), self.height, None) {
            Creation::Success => true,
            Creation::Duplicate => {
                self.error_dialog_open = true;
                false
            },
        }
    }

    /// Takes the press of the button that closes the complaint.
    pub fn dismiss_error(&mut self)
        ensures
            final(self).name == old(self).name,
            final(self).height == old(self).height,
            !final(self).error_dialog_open,
    {
        self.error_dialog_open = false;
    }
}

} // verus!
