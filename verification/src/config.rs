//! The settings that are kept between runs: the name of the desk on record
//! and the saved positions.
//!
//! Reading and writing the file is left to the caller. What stands here is
//! what the settings are and how they change.

use crate::text::{ends_with_char, optional_text, text_ends_with};
use vstd::prelude::*;
use vstd::string::StringExecFns;

verus! {

/// The name of the settings file.
pub const CONFIG_FILE_NAME: &'static str = "idasen-tray-config.json";

/// A height saved under a name, with the keyboard shortcut that calls it.
#[derive(Clone, Debug, PartialEq, Eq)]
pub struct Position {
    /// The name, by which the position is found again.
    pub name: String,
    /// The height in tenths of a millimetre.
    pub value: u16,
    /// The shortcut as text; none, or the empty text, where there is none.
    pub shortcut: Option<String>,
}

/// The settings.
#[derive(Clone, Debug, PartialEq, Eq)]
pub struct ConfigData {
    /// The advertised name of the desk on record, if one is.
    pub local_name: Option<String>,
    /// The saved positions, oldest first.
    pub saved_positions: Vec<Position>,
}

/// The mathematical model of a `Position`.
pub ghost struct PositionView {
    pub name: Seq<char>,
    pub value: int,
    pub shortcut: Option<Seq<char>>,
}

/// The mathematical model of a `ConfigData`.
pub ghost struct ConfigView {
    pub local_name: Option<Seq<char>>,
    pub saved_positions: Seq<PositionView>,
}

impl View for Position {
    type V = PositionView;

    open spec fn view(&self) -> PositionView {
        PositionView {
            name: self.name@,
            value: self.value as int,
            shortcut: optional_text(self.shortcut),
        }
    }
}

/// The models of a list of positions.
pub open spec fn position_views(positions: Seq<Position>) -> Seq<PositionView> {
    positions.map_values(|position: Position| position@)
}

impl View for ConfigData {
    type V = ConfigView;

    open spec fn view(&self) -> ConfigView {
        ConfigView {
            local_name: optional_text(self.local_name),
            saved_positions: position_views(self.saved_positions@),
        }
    }
}

/// Where the settings file lies below `dir`: `dir`, a slash unless `dir`
/// ends with one, and the file's name.
pub open spec fn config_path(dir: Seq<char>) -> Seq<char> {
    if ends_with_char(dir, '/') {
        dir + CONFIG_FILE_NAME@
    } else {
        dir + "/"@ + CONFIG_FILE_NAME@
    }
}

/// The path of the settings file below the data directory `dir`.
pub fn get_config_path(dir: String) -> (path: String)
    ensures
        path@ == config_path(dir@),
{
    let mut path = dir;
    if text_ends_with(path.as_str(), '/') {
        path.append(CONFIG_FILE_NAME);
    } else {
        path.append("/");
        path.append(CONFIG_FILE_NAME);
    }
    path
}

/// Whether no two of `positions` go by one name.
pub open spec fn names_unique(positions: Seq<PositionView>) -> bool {
    forall|i: int, j: int|
        0 <= i < j < positions.len() ==> (#[trigger] positions[i]).name != (
        #[trigger] positions[j]).name
}

/// Whether one of `positions` goes by `name`.
pub open spec fn has_name(positions: Seq<PositionView>, name: Seq<char>) -> bool {
    exists|i: int| 0 <= i < positions.len() && (#[trigger] positions[i]).name == name
}

/// Whether `index` is the first place in `positions` that goes by `name`.
pub open spec fn is_first_named(positions: Seq<PositionView>, name: Seq<char>, index: int) -> bool {
    &&& 0 <= index < positions.len()
    &&& positions[index].name == name
    &&& forall|earlier: int| 0 <= earlier < index ==> (#[trigger] positions[earlier]).name != name
}

/// The shortcut that is in force: the text, unless there is none or it is
/// empty.
pub open spec fn live_text(shortcut: Option<Seq<char>>) -> Option<Seq<char>> {
    match shortcut {
        Some(text) => if text.len() > 0 {
            Some(text)
        } else {
            None
        },
        None => None,
    }
}

/// The shortcut that is in force, if one is: a position without a shortcut,
/// or with the empty text for one, has none.
pub fn live_shortcut(shortcut: &Option<String>) -> (live: Option<&String>)
    ensures
        match live {
            Some(text) => live_text(optional_text(*shortcut)) == Some(text@),
            None => live_text(optional_text(*shortcut)) is None,
        },
{
    match shortcut {
        Some(text) => if text.as_str().is_empty() {
            None
        } else {
            Some(text)
        },
        None => None,
    }
}

impl ConfigData {
    /// The settings of a first run: no desk on record, no position saved.
    pub fn new() -> (config: ConfigData)
        ensures
            config@.local_name is None,
            config@.saved_positions.len() == 0,
    {
        ConfigData { local_name: None, saved_positions: Vec::new() }
    }

    /// Puts the desk of this name on record.
    pub fn save_local_name(&mut self, new_local_name: String)
        ensures
            final(self)@.local_name == Some(new_local_name@),
            final(self)@.saved_positions == old(self)@.saved_positions,
    {
        self.local_name = Some(new_local_name);
    }

    /// Takes the desk off the record; the saved positions stay.
    pub fn reset_desk(&mut self)
        ensures
            final(self)@.local_name is None,
            final(self)@.saved_positions == old(self)@.saved_positions,
    {
        self.local_name = None;
    }

    /// Finds the first position that goes by `name`.
    pub fn find_position(&self, name: &str) -> (found: Option<usize>)
        ensures
            match found {
                Some(index) => is_first_named(self@.saved_positions, name@, index as int),
                None => !has_name(self@.saved_positions, name@),
            },
    {
        let wanted = String::from_str(name);
        let mut index: usize = 0;
        while index < self.saved_positions.len()
            invariant
                index <= self.saved_positions.len(),
                wanted@ == name@,
                forall|earlier: int|
                    0 <= earlier < index ==> (#[trigger] self@.saved_positions[earlier]).name
                        != name@,
            decreases self.saved_positions.len() - index,
        {
            if self.saved_positions[index].name == wanted {
                return Some(index);
            }
            index += 1;
        }
        None
    }

    /// Saves a new position under `name`, after those that are there,
    /// unless a position of that name is there already: then nothing
    /// changes.
    pub fn create_new_elem(
        &mut self,
        name: &str,
        value: u16,
        shortcutvalue: Option<String>,
    ) -> (outcome: Creation)
        ensures
            final(self)@.local_name == old(self)@.local_name,
            if has_name(old(self)@.saved_positions, name@) {
                &&& outcome == Creation::Duplicate
                &&& final(self)@.saved_positions == old(self)@.saved_positions
            } else {
                &&& outcome == Creation::Success
                &&& final(self)@.saved_positions == old(self)@.saved_positions.push(
                    PositionView {
                        name: name@,
                        value: value as int,
                        shortcut: optional_text(shortcutvalue),
                    },
                )
            },
            names_unique(old(self)@.saved_positions) ==> names_unique(final(self)@.saved_positions),
    {
        match self.find_position(name) {
            Some(_) => Creation::Duplicate,
            None => {
                let ghost before = self.saved_positions@;
                let added = Position { name: String::from_str(name), value, shortcut: shortcutvalue };
                self.saved_positions.push(added);
                assert(position_views(self.saved_positions@) =~= position_views(before).push(
                    added@,
                ));
                Creation::Success
            },
        }
    }

    /// Removes every position that goes by `pos_name`, and hands out the
    /// shortcut that is to be released with it: the one in force for the
    /// first such position, if there is one.
    pub fn remove_position(&mut self, pos_name: &str) -> (release: Option<String>)
        ensures
            final(self)@.local_name == old(self)@.local_name,
            final(self)@.saved_positions == positions_without(
                old(self)@.saved_positions,
                pos_name@,
            ),
            optional_text(release) == shortcut_to_release(old(self)@.saved_positions, pos_name@),
            !has_name(final(self)@.saved_positions, pos_name@),
            names_unique(old(self)@.saved_positions) ==> names_unique(final(self)@.saved_positions),
    {
        let release = match self.find_position(pos_name) {
            Some(index) => {
                assert(self@.saved_positions[index as int] == self.saved_positions@[index as int]@);
                match live_shortcut(&self.saved_positions[index].shortcut) {
                    Some(text) => Some(text.clone()),
                    None => None,
                }
            },
            None => None,
        };
        let wanted = String::from_str(pos_name);
        let ghost all = self.saved_positions@;
        let ghost gone = |position: PositionView| position.name != pos_name@;
        let mut leaving: Vec<Position> = Vec::new();
        std::mem::swap(&mut self.saved_positions, &mut leaving);
        proof {
            reveal(Seq::filter);
            assert(all.take(0) =~= Seq::<Position>::empty());
        }
        for position in it: leaving.into_iter()
            invariant
                it.seq() == all,
                wanted@ == pos_name@,
                gone == (|position: PositionView| position.name != pos_name@),
                self.local_name == old(self).local_name,
                position_views(self.saved_positions@) == position_views(
                    all.take(it.index() as int),
                ).filter(gone),
        {
            let ghost at = it.index() as int;
            let ghost kept = self.saved_positions@;
            proof {
                reveal(Seq::filter);
                assert(position_views(all.take(at + 1)).drop_last() =~= position_views(
                    all.take(at),
                ));
                assert(position_views(all.take(at + 1)).last() == position@);
            }
            if !(position.name == wanted) {
                self.saved_positions.push(position);
                assert(position_views(self.saved_positions@) =~= position_views(kept).push(
                    position@,
                ));
            }
        }
        proof {
            assert(all.take(all.len() as int) =~= all);
            lemma_positions_without(position_views(all), pos_name@);
        }
        release
    }

    /// The shortcuts to bring into force when the program starts: one for
    /// each saved position that has one, in the order of the positions.
    pub fn shortcut_bindings(&self) -> (bindings: Vec<ShortcutBinding>)
        ensures
            binding_views(bindings@) == bindings_of(self@.saved_positions),
    {
        let mut bindings: Vec<ShortcutBinding> = Vec::new();
        let mut index: usize = 0;
        proof {
            assert(self@.saved_positions.take(0) =~= Seq::<PositionView>::empty());
        }
        while index < self.saved_positions.len()
            invariant
                index <= self.saved_positions.len(),
                binding_views(bindings@) == bindings_of(self@.saved_positions.take(index as int)),
            decreases self.saved_positions.len() - index,
        {
            let ghost so_far = bindings@;
            proof {
                assert(self@.saved_positions.take(index + 1).drop_last()
                    =~= self@.saved_positions.take(index as int));
                assert(self@.saved_positions.take(index + 1).last()
                    == self.saved_positions@[index as int]@);
            }
            match live_shortcut(&self.saved_positions[index].shortcut) {
                Some(text) => {
                    bindings.push(
                        ShortcutBinding {
                            shortcut: text.clone(),
                            value: self.saved_positions[index].value,
                        },
                    );
                    assert(binding_views(bindings@) =~= binding_views(so_far).push(
                        bindings@.last()@,
                    ));
                },
                None => {},
            }
            index += 1;
        }
        proof {
            assert(self@.saved_positions.take(self.saved_positions.len() as int)
                =~= self@.saved_positions);
        }
        bindings
    }

    /// The height saved under `name`, taken from the first position of
    /// that name.
    pub fn saved_height(&self, name: &str) -> (height: Option<u16>)
        ensures
            match height {
                Some(value) => exists|index: int|
                    is_first_named(self@.saved_positions, name@, index)
                        && self@.saved_positions[index].value == value,
                None => !has_name(self@.saved_positions, name@),
            },
    {
        match self.find_position(name) {
            Some(index) => Some(self.saved_positions[index].value),
            None => None,
        }
    }
}

/// How the saving of a new position went.
#[derive(Clone, Copy, Debug, PartialEq, Eq, Structural)]
pub enum Creation {
    /// A position of that name is there already; nothing was saved.
    Duplicate,
    /// The position was saved.
    Success,
}

/// The word that stands for `outcome`.
pub open spec fn creation_text(outcome: Creation) -> Seq<char> {
    match outcome {
        Creation::Duplicate => "duplicate"@,
        Creation::Success => "success"@,
    }
}

impl Creation {
    /// The word that stands for this outcome.
    pub fn as_str(&self) -> (word: &'static str)
        ensures
            word@ == creation_text(*self),
    {
        match self {
            Creation::Duplicate => "duplicate",
            Creation::Success => "success",
        }
    }
}

/// The positions that are left when every one that goes by `name` is
/// taken out.
pub open spec fn positions_without(positions: Seq<PositionView>, name: Seq<char>) -> Seq<
    PositionView,
> {
    positions.filter(|position: PositionView| position.name != name)
}

/// The place of the first of `positions` that goes by `name`, where there
/// is one.
pub open spec fn first_named(positions: Seq<PositionView>, name: Seq<char>) -> int {
    choose|index: int| is_first_named(positions, name, index)
}

/// The shortcut that goes out of force when the positions called `name`
/// are removed: the one in force for the first of them.
pub open spec fn shortcut_to_release(positions: Seq<PositionView>, name: Seq<char>) -> Option<
    Seq<char>,
> {
    if has_name(positions, name) {
        live_text(positions[first_named(positions, name)].shortcut)
    } else {
        None
    }
}

/// Taking out the positions of one name leaves none of that name, and
/// leaves the names unique where they were.
pub proof fn lemma_positions_without(positions: Seq<PositionView>, name: Seq<char>)
    ensures
        !has_name(positions_without(positions, name), name),
        names_unique(positions) ==> names_unique(positions_without(positions, name)),
        forall|i: int|
            0 <= i < positions_without(positions, name).len() ==> positions.contains(
                #[trigger] positions_without(positions, name)[i],
            ),
    decreases positions.len(),
{
    reveal(Seq::filter);
    let gone = |position: PositionView| position.name != name;
    let left = positions_without(positions, name);
    if positions.len() > 0 {
        let before = positions.drop_last();
        let last = positions.last();
        lemma_positions_without(before, name);
        let left_before = positions_without(before, name);
        assert(left == if gone(last) {
            left_before.push(last)
        } else {
            left_before
        });
        assert forall|i: int| 0 <= i < left.len() implies positions.contains(
            #[trigger] left[i],
        ) by {
            if i < left_before.len() {
                assert(before.contains(left_before[i]));
                let at = choose|at: int| 0 <= at < before.len() && before[at] == left_before[i];
                assert(positions[at] == left[i]);
            } else {
                assert(positions[positions.len() - 1] == left[i]);
            }
        }
        if names_unique(positions) {
            assert(names_unique(before)) by {
                assert forall|i: int, j: int| 0 <= i < j < before.len() implies (
                #[trigger] before[i]).name != (#[trigger] before[j]).name by {
                    assert(positions[i].name != positions[j].name);
                }
            }
            assert forall|i: int, j: int| 0 <= i < j < left.len() implies (#[trigger] left[i]).name
                != (#[trigger] left[j]).name by {
                if j < left_before.len() {
                    assert(left_before[i].name != left_before[j].name);
                } else {
                    assert(before.contains(left_before[i]));
                    let at = choose|at: int| 0 <= at < before.len() && before[at] == left_before[i];
                    assert(positions[at].name != positions[positions.len() - 1].name);
                }
            }
        }
    }
}

/// A shortcut together with the height that it calls.
#[derive(Clone, Debug, PartialEq, Eq)]
pub struct ShortcutBinding {
    /// The shortcut as text; never empty.
    pub shortcut: String,
    /// The height in tenths of a millimetre.
    pub value: u16,
}

/// The mathematical model of a `ShortcutBinding`.
pub ghost struct BindingView {
    pub shortcut: Seq<char>,
    pub value: int,
}

impl View for ShortcutBinding {
    type V = BindingView;

    open spec fn view(&self) -> BindingView {
        BindingView { shortcut: self.shortcut@, value: self.value as int }
    }
}

/// The models of a list of bindings.
pub open spec fn binding_views(bindings: Seq<ShortcutBinding>) -> Seq<BindingView> {
    bindings.map_values(|binding: ShortcutBinding| binding@)
}

/// The bindings that `positions` call for: one for each position whose
/// shortcut is in force, in the order of the positions.
pub open spec fn bindings_of(positions: Seq<PositionView>) -> Seq<BindingView>
    decreases positions.len(),
{
    if positions.len() == 0 {
        Seq::empty()
    } else {
        match live_text(positions.last().shortcut) {
            Some(text) => bindings_of(positions.drop_last()).push(
                BindingView { shortcut: text, value: positions.last().value },
            ),
            None => bindings_of(positions.drop_last()),
        }
    }
}

} // verus!
