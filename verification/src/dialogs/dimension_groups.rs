//! The Manage-dimension-groups window: which group is on screen, the name
//! typed for a new one, and the hand-over to the Set-scale dialog.

use vstd::prelude::*;

use crate::state::Status;
use crate::strings::{str_trim, str_trimmed};

verus! {

/// A dimension group of the open document, by its number.
#[derive(Debug, Clone, Copy, PartialEq, Eq, Hash, Structural)]
pub struct GroupId(pub u64);

/// The number of the group every document starts with. It cannot be hidden,
/// so its settings offer no layer switch.
pub const DEFAULT_GROUP: u64 = 0;

/// The group every document starts with.
pub open spec fn default_group() -> GroupId {
    GroupId(DEFAULT_GROUP)
}

/// The group every document starts with.
pub fn default_group_id() -> (g: GroupId)
    ensures
        g == default_group(),
{
    GroupId(DEFAULT_GROUP)
}

/// Whether the window offers a visibility switch for a group: every group
/// but the default one, which the engine refuses to hide.
pub fn offers_layer_switch(group: GroupId) -> (r: bool)
    ensures
        r == (group != default_group()),
{
    group.0 != DEFAULT_GROUP
}

/// The unit a dimension group measures in.
#[derive(Debug, Clone, Copy, PartialEq, Eq, Hash, Structural)]
pub enum Unit {
    Millimeter,
    Centimeter,
    Meter,
    Inch,
    Foot,
}

impl Unit {
    /// Every unit, in the order the unit picker offers them.
    pub const ALL: [Unit; 5] = [Unit::Millimeter, Unit::Centimeter, Unit::Meter, Unit::Inch, Unit::Foot];
}

/// The window's state.
pub struct DimensionGroupsDialog {
    /// The group whose settings are shown.
    pub selected: GroupId,
    /// The name typed for a new group.
    pub new_name: String,
    /// The unit chosen for a new group.
    pub new_unit: Unit,
    /// A press of *Set scale…* waiting to be handed to the Set-scale dialog.
    pub scale_requested: Option<GroupId>,
    /// Set by the Close button.
    pub close_requested: bool,
}

/// The name a new group would get from what was typed: the text without
/// surrounding white space, or nothing when that leaves nothing.
pub open spec fn group_name(typed: Seq<char>) -> Option<Seq<char>> {
    let name = str_trimmed(typed);
    if name.len() == 0 {
        None
    } else {
        Some(name)
    }
}

impl DimensionGroupsDialog {
    /// Open on `active`, the group the measure tool is drawing into.
    pub fn open(active: GroupId) -> (d: DimensionGroupsDialog)
        ensures
            d.selected == active,
            d.new_name@.len() == 0,
            d.new_unit == Unit::Millimeter,
            d.scale_requested is None,
            !d.close_requested,
    {
        DimensionGroupsDialog {
            selected: active,
            new_name: String::new(),
            new_unit: Unit::Millimeter,
            scale_requested: None,
            close_requested: false,
        }
    }

    /// Take the pending *Set scale…* request. It fires once: a second take
    /// finds nothing.
    pub fn take_scale_request(&mut self) -> (r: Option<GroupId>)
        ensures
            r == old(self).scale_requested,
            final(self).scale_requested is None,
            final(self).selected == old(self).selected,
            final(self).new_name == old(self).new_name,
            final(self).new_unit == old(self).new_unit,
            final(self).close_requested == old(self).close_requested,
    {
        self.scale_requested.take()
    }

    /// Fall back to the default group when the selected one is no longer in
    /// the document.
    pub fn keep_selection(&mut self, selected_exists: bool)
        ensures
            final(self).selected == (if selected_exists {
                old(self).selected
            } else {
                default_group()
            }),
            final(self).new_name == old(self).new_name,
            final(self).new_unit == old(self).new_unit,
            final(self).scale_requested == old(self).scale_requested,
            final(self).close_requested == old(self).close_requested,
    {
        if !selected_exists {
            self.selected = default_group_id();
        }
    }

    /// The name a press of *New group* would create now, if the typed text
    /// makes one.
    pub fn pending_name(&self) -> (r: Option<String>)
        ensures
            match r {
                Some(n) => group_name(self.new_name@) == Some(n@),
                None => group_name(self.new_name@) is None,
            },
    {
        let name = str_trim(self.new_name.as_str());
        if name.is_empty() {
            None
        } else {
            Some(name.to_owned())
        }
    }

    /// *New group* was pressed: the trimmed name is handed out with the unit
    /// chosen for the group, and the name field is cleared, so a second press
    /// cannot make a second group of the same name. A name of only white
    /// space makes nothing and keeps the field.
    pub fn add_group(&mut self) -> (r: Option<(String, Unit)>)
        ensures
            match r {
                Some((n, u)) => group_name(old(self).new_name@) == Some(n@) && u == old(self).new_unit
                    && final(self).new_name@.len() == 0,
                None => group_name(old(self).new_name@) is None && final(self).new_name
                    == old(self).new_name,
            },
            final(self).new_unit == old(self).new_unit,
            final(self).selected == old(self).selected,
            final(self).scale_requested == old(self).scale_requested,
            final(self).close_requested == old(self).close_requested,
    {
        match self.pending_name() {
            Some(name) => {
                self.new_name = String::new();
                Some((name, self.new_unit))
            },
            None => None,
        }
    }
}

/// Open the window for `status` on the group `active`, or decline when no
/// document is open.
pub fn open_for(status: &Status, active: GroupId) -> (r: Option<DimensionGroupsDialog>)
    ensures
        match status {
            Status::Empty => r is None,
            Status::Open(_) => r matches Some(d) && d.selected == active && d.new_name@.len() == 0
                && d.new_unit == Unit::Millimeter
                && d.scale_requested is None && !d.close_requested,
        },
{
    match status {
        Status::Open(_) => Some(DimensionGroupsDialog::open(active)),
        Status::Empty => None,
    }
}

} // verus!
