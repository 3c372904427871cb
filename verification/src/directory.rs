//! Picking the desks out of what a Bluetooth scan has seen.

use crate::error::BtError;
use crate::text::{contains_text, optional_text, text_contains};
use vstd::prelude::*;
use vstd::string::StringExecFns;

verus! {

/// The word that a peripheral's advertised name must hold to count as a desk
/// when no name is asked for.
pub const DESK_KEYWORD: &'static str = "Desk";

/// How long an adapter is left to scan before it is asked what it has seen,
/// in milliseconds.
pub const SCAN_WINDOW_MS: u64 = 2000;

/// What a peripheral advertises about itself.
#[derive(Clone, Debug, PartialEq, Eq)]
pub struct SeenProperties {
    /// The advertised local name, where there is one.
    pub local_name: Option<String>,
}

/// A peripheral that an adapter has seen during a scan.
#[derive(Clone, Debug, PartialEq, Eq)]
pub struct Sighting<H> {
    /// The handle by which the peripheral can be connected to.
    pub perp: H,
    /// What is known of it, if anything is known yet.
    pub properties: Option<SeenProperties>,
}

/// A peripheral together with its name, which stands for its identity.
#[derive(Clone, Debug, PartialEq, Eq)]
pub struct ExpandedPeripheral<H> {
    /// The handle by which the peripheral can be connected to.
    pub perp: H,
    /// The advertised local name; empty where the peripheral has none.
    pub name: String,
}

/// The mathematical model of an `ExpandedPeripheral`.
pub ghost struct DeskView<H> {
    pub perp: H,
    pub name: Seq<char>,
}

impl<H> View for ExpandedPeripheral<H> {
    type V = DeskView<H>;

    open spec fn view(&self) -> DeskView<H> {
        DeskView { perp: self.perp, name: self.name@ }
    }
}

/// The name under which a peripheral goes: its local name, or the empty
/// name where it advertises none.
pub open spec fn shown_name(local_name: Option<Seq<char>>) -> Seq<char> {
    match local_name {
        Some(name) => name,
        None => Seq::empty(),
    }
}

/// Whether a peripheral with this local name passes the filter.
///
/// With a name asked for, the peripheral's name must equal it exactly, case
/// and all. With none asked for, the peripheral must advertise a name that
/// holds `DESK_KEYWORD`.
pub open spec fn name_matches(filter: Option<Seq<char>>, local_name: Option<Seq<char>>) -> bool {
    match filter {
        Some(wanted) => wanted == shown_name(local_name),
        None => local_name matches Some(name) && contains_text(name, DESK_KEYWORD@),
    }
}

/// Decides whether a peripheral with this local name passes the filter.
pub fn matches_filter(filter: &Option<String>, local_name: &Option<String>) -> (passes: bool)
    ensures
        passes == name_matches(optional_text(*filter), optional_text(*local_name)),
{
    match filter {
        Some(wanted) => match local_name {
            Some(name) => *wanted == *name,
            None => {
                let shown = String::new();
                *wanted == shown
            },
        },
        None => match local_name {
            Some(name) => text_contains(name.as_str(), DESK_KEYWORD),
            None => false,
        },
    }
}

/// Whether a sighting is kept: something is known of the peripheral, and
/// its name passes the filter.
pub open spec fn is_desk<H>(sighting: Sighting<H>, filter: Option<Seq<char>>) -> bool {
    sighting.properties matches Some(props) && name_matches(filter, optional_text(props.local_name))
}

/// The desk that a kept sighting becomes.
pub open spec fn desk_of<H>(sighting: Sighting<H>) -> DeskView<H> {
    DeskView {
        perp: sighting.perp,
        name: match sighting.properties {
            Some(props) => shown_name(optional_text(props.local_name)),
            None => Seq::empty(),
        },
    }
}

/// The desks among `seen`: the sightings that are kept, in the order in
/// which they were seen.
pub open spec fn desks_among<H>(seen: Seq<Sighting<H>>, filter: Option<Seq<char>>) -> Seq<
    DeskView<H>,
>
    decreases seen.len(),
{
    if seen.len() == 0 {
        Seq::empty()
    } else if is_desk(seen.last(), filter) {
        desks_among(seen.drop_last(), filter).push(desk_of(seen.last()))
    } else {
        desks_among(seen.drop_last(), filter)
    }
}

/// With a name asked for, every desk found goes by exactly that name; and
/// with or without one, no more desks are found than peripherals were seen.
pub proof fn lemma_desks_among<H>(seen: Seq<Sighting<H>>, filter: Option<Seq<char>>)
    ensures
        desks_among(seen, filter).len() <= seen.len(),
        filter matches Some(name) ==> forall|i: int|
            0 <= i < desks_among(seen, filter).len() ==> (#[trigger] desks_among(
                seen,
                filter,
            )[i]).name == name,
    decreases seen.len(),
{
    if seen.len() > 0 {
        lemma_desks_among(seen.drop_last(), filter);
    }
}

/// The models of a list of desks.
pub open spec fn desk_views<H>(desks: Seq<ExpandedPeripheral<H>>) -> Seq<DeskView<H>> {
    desks.map_values(|desk: ExpandedPeripheral<H>| desk@)
}

/// Picks the desks out of what one adapter has seen.
pub fn search_adapter_for_desks<H>(seen: Vec<Sighting<H>>, name: &Option<String>) -> (desks: Vec<
    ExpandedPeripheral<H>,
>)
    ensures
        desk_views(desks@) == desks_among(seen@, optional_text(*name)),
{
    let ghost all = seen@;
    let ghost filter = optional_text(*name);
    let mut desks: Vec<ExpandedPeripheral<H>> = Vec::new();
    for sighting in it: seen.into_iter()
        invariant
            it.seq() == all,
            filter == optional_text(*name),
            desk_views(desks@) == desks_among(all.take(it.index() as int), filter),
    {
        let ghost before = it.index() as int;
        assert(all.take(before + 1).drop_last() =~= all.take(before));
        assert(all.take(before + 1).last() == sighting);
        let Sighting { perp, properties } = sighting;
        if let Some(props) = properties {
            if matches_filter(name, &props.local_name) {
                let shown = match props.local_name {
                    Some(local_name) => local_name,
                    None => String::new(),
                };
                let ghost old_desks = desks@;
                desks.push(ExpandedPeripheral { perp, name: shown });
                assert(desk_views(desks@) =~= desk_views(old_desks).push(desk_of(sighting)));
            }
        }
    }
    assert(all.take(all.len() as int) =~= all);
    desks
}

/// What one adapter's scan came to: the desks it saw, or why it failed.
pub type ScanOutcome<H> = Result<Vec<ExpandedPeripheral<H>>, BtError>;

/// The error of the first scan that failed, if any did.
pub open spec fn first_failure<H>(scans: Seq<ScanOutcome<H>>) -> Option<BtError>
    decreases scans.len(),
{
    if scans.len() == 0 {
        None
    } else {
        match scans.first() {
            Err(e) => Some(e),
            Ok(_) => first_failure(scans.drop_first()),
        }
    }
}

/// The desks of all scans that went through, adapter after adapter.
pub open spec fn all_desks<H>(scans: Seq<ScanOutcome<H>>) -> Seq<DeskView<H>>
    decreases scans.len(),
{
    if scans.len() == 0 {
        Seq::empty()
    } else {
        match scans.first() {
            Err(_) => all_desks(scans.drop_first()),
            Ok(desks) => desk_views(desks@) + all_desks(scans.drop_first()),
        }
    }
}

/// Joins what the adapters have found into one list.
///
/// Where a scan failed, the error of the first such scan is handed on.
/// Where all went through and none saw a desk, the outcome is
/// `CannotFindDevice`. Otherwise it is every desk seen, adapter after
/// adapter, each adapter's desks in the order in which it saw them.
pub fn get_desks<H>(scans: Vec<ScanOutcome<H>>) -> (outcome: ScanOutcome<H>)
    ensures
        match first_failure(scans@) {
            Some(e) => outcome matches Err(err) && err == e,
            None => if all_desks(scans@).len() == 0 {
                outcome matches Err(err) && err == BtError::CannotFindDevice
            } else {
                outcome matches Ok(desks) && desk_views(desks@) == all_desks(scans@)
            },
        },
{
    let ghost all = scans@;
    let mut desks: Vec<ExpandedPeripheral<H>> = Vec::new();
    assert(all.skip(0) =~= all);
    for scan in it: scans.into_iter()
        invariant
            it.seq() == all,
            first_failure(all) == first_failure(all.skip(it.index() as int)),
            all_desks(all) == desk_views(desks@) + all_desks(all.skip(it.index() as int)),
    {
        let ghost at = it.index() as int;
        assert(all.skip(at).first() == scan);
        assert(all.skip(at).drop_first() =~= all.skip(at + 1));
        match scan {
            Ok(found) => {
                let ghost old_desks = desks@;
                let mut found = found;
                desks.append(&mut found);
                assert(desk_views(desks@) =~= desk_views(old_desks) + desk_views(
                    scan->Ok_0@,
                ));
            },
            Err(e) => {
                return Err(e);
            },
        }
    }
    assert(all.skip(all.len() as int) =~= Seq::<ScanOutcome<H>>::empty());
    assert(desk_views(desks@).len() == desks@.len());
    if desks.is_empty() {
        Err(BtError::CannotFindDevice)
    } else {
        Ok(desks)
    }
}

/// Picks the desk to connect to: the first of those found.
pub fn first_desk<H>(desks: Vec<ExpandedPeripheral<H>>) -> (picked: Result<
    ExpandedPeripheral<H>,
    BtError,
>)
    ensures
        match picked {
            Ok(desk) => desks@.len() > 0 && desk == desks@[0],
            Err(e) => desks@.len() == 0 && e == BtError::CannotFindDevice,
        },
{
    let mut desks = desks;
    if desks.len() == 0 {
        Err(BtError::CannotFindDevice)
    } else {
        Ok(desks.remove(0))
    }
}

/// Whether a desk that a scan has found is the one already on record.
#[derive(Clone, Copy, Debug, PartialEq, Eq, Structural)]
pub enum SavedDeskStates {
    /// No desk is on record yet.
    New,
    /// A desk of this name is on record.
    Saved,
}

/// The word that stands for `state`.
pub open spec fn state_text(state: SavedDeskStates) -> Seq<char> {
    match state {
        SavedDeskStates::New => "new"@,
        SavedDeskStates::Saved => "saved"@,
    }
}

impl SavedDeskStates {
    /// The word that stands for this state.
    pub fn as_str(&self) -> (word: &'static str)
        ensures
            word@ == state_text(*self),
    {
        match self {
            SavedDeskStates::New => "new",
            SavedDeskStates::Saved => "saved",
        }
    }
}

/// A peripheral that may be a desk, as it is shown to the user.
#[derive(Clone, Debug, PartialEq, Eq)]
pub struct PotentialDesk {
    /// The advertised name.
    pub name: String,
    /// `"saved"` or `"new"`.
    pub status: String,
}

/// The state under which found desks are shown: saved where a desk's name
/// is on record, new where none is.
pub open spec fn shown_state(local_name: Option<String>) -> SavedDeskStates {
    match local_name {
        Some(_) => SavedDeskStates::Saved,
        None => SavedDeskStates::New,
    }
}

/// Lists the found desks for the user to pick from: each under its name,
/// in the order in which they were found, and all of them marked as saved
/// or as new according to whether a desk's name is on record.
pub fn get_desk_to_connect<H>(
    desks: &Vec<ExpandedPeripheral<H>>,
    local_name: &Option<String>,
) -> (shown: Vec<PotentialDesk>)
    ensures
        shown@.len() == desks@.len(),
        forall|i: int|
            0 <= i < desks@.len() ==> (#[trigger] shown@[i]).name@ == desks@[i].name@
                && shown@[i].status@ == state_text(shown_state(*local_name)),
{
    let state = match local_name {
        Some(_) => SavedDeskStates::Saved,
        None => SavedDeskStates::New,
    };
    let mut shown: Vec<PotentialDesk> = Vec::new();
    let mut index: usize = 0;
    while index < desks.len()
        invariant
            index <= desks.len(),
            state == shown_state(*local_name),
            shown@.len() == index,
            forall|i: int|
                0 <= i < index ==> (#[trigger] shown@[i]).name@ == desks@[i].name@
                    && shown@[i].status@ == state_text(state),
        decreases desks.len() - index,
    {
        shown.push(
            PotentialDesk {
                name: desks[index].name.clone(),
                status: String::from_str(state.as_str()),
            },
        );
        index += 1;
    }
    shown
}

} // verus!
