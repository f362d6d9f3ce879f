use vstd::prelude::*;
use vstd::pervasive::unreached;
use crate::controls::control_ui::{BindingView, ControlUi};
use crate::controls::control_value_error::{result_view, ControlValueError};
use crate::controls::integer_control::{IntegerControl, IntegerControlView};
use crate::device::{read_view, ControlDescriptor, ControlWrite, DescriptorView, RawValue, ReadResult, WriteResult};
use crate::key_value_item::{clone_items, items_view, ItemData, ItemView};

verus! {

/// The binding of a choice control: one selected entry out of a list.
///
/// It holds the selection last confirmed by the device: the place of a
/// value that was read, or of an entry that was written with success.
#[derive(Debug)]
pub struct MenuControl {
    id: u32,
    title: String,
    entries: Vec<ItemData>,
    selected: usize,
    sensitive: bool,
}

/// What a [`MenuControl`] stands for.
pub struct MenuControlView {
    /// The control the binding belongs to.
    pub id: u32,
    /// The name shown beside the list.
    pub title: Seq<char>,
    /// The entries to choose from, in the device's order.
    pub entries: Seq<ItemView>,
    /// The place of the selected entry.
    pub selected: int,
    /// Whether the user may choose.
    pub sensitive: bool,
}

impl View for MenuControl {
    type V = MenuControlView;

    closed spec fn view(&self) -> MenuControlView {
        MenuControlView {
            id: self.id,
            title: self.title@,
            entries: items_view(self.entries@),
            selected: self.selected as int,
            sensitive: self.sensitive,
        }
    }
}

/// Whether the entry at place `i` of `items` has the device value `value`
/// as its raw value. A device value that no raw value can hold, a negative
/// one or one beyond 32 bits, is the raw value of no entry.
pub open spec fn is_match(items: Seq<ItemView>, value: i64, i: int) -> bool {
    0 <= i < items.len() && items[i].id as int == value as int
}

/// Whether any entry of `items` has the raw value of `value`.
pub open spec fn has_match(items: Seq<ItemView>, value: i64) -> bool {
    exists|i: int| is_match(items, value, i)
}

/// Whether `i` is the first place of `items` with the raw value of `value`.
pub open spec fn is_first_match(items: Seq<ItemView>, value: i64, i: int) -> bool {
    is_match(items, value, i) && forall|j: int| 0 <= j < i ==> !is_match(items, value, j)
}

/// The place to select for the device value `value`: the first entry with
/// that raw value, and the first entry of all where none has it.
pub open spec fn selection(items: Seq<ItemView>, value: i64) -> int {
    if has_match(items, value) {
        choose|i: int| is_first_match(items, value, i)
    } else {
        0
    }
}

/// The selection is the first matching place, if `i` is one.
pub proof fn lemma_selection_is_first_match(items: Seq<ItemView>, value: i64, i: int)
    requires
        is_first_match(items, value, i),
    ensures
        has_match(items, value),
        selection(items, value) == i,
{
    assert(is_match(items, value, i));
    let k = choose|k: int| is_first_match(items, value, k);
    assert(is_first_match(items, value, k));
    if k < i {
        assert(!is_match(items, value, k));
    }
    if i < k {
        assert(!is_match(items, value, i));
    }
}

/// Where no entry matches, the first entry is selected.
pub proof fn lemma_unmatched_selects_first(items: Seq<ItemView>, value: i64)
    requires
        forall|i: int| 0 <= i < items.len() ==> items[i].id as int != value as int,
    ensures
        selection(items, value) == 0,
{
    assert forall|i: int| !is_match(items, value, i) by {}
}

impl MenuControlView {
    /// The binding made for `description`, given what a read of its value
    /// gave. Meant for a description that lists its entries.
    pub open spec fn created(description: DescriptorView, read: Result<RawValue, Seq<char>>) -> Self
        recommends
            description.items is Some,
    {
        MenuControlView {
            id: description.id,
            title: description.name,
            entries: description.items->0,
            selected: selection(description.items->0, IntegerControlView::value_of(description, read)),
            sensitive: description.flags.spec_is_interactive(),
        }
    }

    /// The binding after its enablement was taken anew from `description`.
    pub open spec fn with_state(self, description: DescriptorView) -> Self {
        MenuControlView { sensitive: description.flags.spec_is_interactive(), ..self }
    }

    /// The binding after its selection was taken anew from a read, matched
    /// against the entries that `description` lists.
    pub open spec fn with_value(self, description: DescriptorView, read: Result<RawValue, Seq<char>>) -> Self
        recommends
            description.items is Some,
    {
        MenuControlView {
            selected: selection(description.items->0, IntegerControlView::value_of(description, read)),
            ..self
        }
    }

    /// Whether the user can select the entry at `position`: it exists, and
    /// the user may choose.
    pub open spec fn selectable(self, position: int) -> bool {
        self.sensitive && 0 <= position < self.entries.len()
    }

    /// The write that selecting the entry at `position` calls for: that
    /// entry's raw value. None where the entry cannot be selected.
    pub open spec fn write_for(self, position: int) -> Option<ControlWrite> {
        if self.selectable(position) {
            Some(ControlWrite { id: self.id, value: RawValue::Integer(self.entries[position].id as i64) })
        } else {
            None
        }
    }

    /// The binding after the write for the entry at `position` was
    /// attempted; `written` says whether the device took it.
    pub open spec fn applied(self, position: int, written: bool) -> Self {
        if self.selectable(position) && written {
            MenuControlView { selected: position, ..self }
        } else {
            self
        }
    }

    /// Whether the other controls are to be refreshed after the write.
    pub open spec fn refresh_after(self, position: int, written: bool) -> bool {
        self.selectable(position) && written
    }
}

impl MenuControl {
    /// Binds the control that `description` describes. `read` is what
    /// reading its current value from the device gave.
    ///
    /// A choice control without a list of entries cannot be bound.
    pub fn new(description: &ControlDescriptor, read: &ReadResult) -> (control: MenuControl)
        requires
            description@.items is Some,
        ensures
            control@ == MenuControlView::created(description@, read_view(*read)),
            has_match(description@.items->0, IntegerControlView::value_of(description@, read_view(*read)))
                ==> is_first_match(
                description@.items->0,
                IntegerControlView::value_of(description@, read_view(*read)),
                control@.selected,
            ),
            !has_match(description@.items->0, IntegerControlView::value_of(description@, read_view(*read)))
                ==> control@.selected == 0,
    {
        let sensitive = description.flags.is_interactive();
        let value = MenuControl::query_state(description, read);
        match &description.items {
            Some(ctrl_items) => {
                let selected_position = MenuControl::selected_position(ctrl_items, value);
                MenuControl {
                    id: description.id,
                    title: description.name.clone(),
                    entries: clone_items(ctrl_items),
                    selected: selected_position,
                    sensitive,
                }
            },
            None => unreached(),
        }
    }

    /// The place in `ctrl_items` to select for the device value `value`.
    pub fn selected_position(ctrl_items: &Vec<ItemData>, value: i64) -> (position: usize)
        ensures
            position == selection(items_view(ctrl_items@), value),
            has_match(items_view(ctrl_items@), value) ==> is_first_match(
                items_view(ctrl_items@),
                value,
                position as int,
            ),
            !has_match(items_view(ctrl_items@), value) ==> position == 0,
    {
        let ghost items = items_view(ctrl_items@);
        let mut count: usize = 0;
        while count < ctrl_items.len()
            invariant
                count <= ctrl_items@.len(),
                items == items_view(ctrl_items@),
                forall|j: int| 0 <= j < count ==> !is_match(items, value, j),
            decreases ctrl_items@.len() - count,
        {
            if value == ctrl_items[count].id as i64 {
                proof {
                    assert(is_first_match(items, value, count as int));
                    lemma_selection_is_first_match(items, value, count as int);
                }
                return count;
            }
            count = count + 1;
        }
        proof {
            assert forall|i: int| !is_match(items, value, i) by {}
        }
        0
    }

    /// The integer in `read`, or the reason why there is none.
    pub fn query_control_integer(ctrl_desc: &ControlDescriptor, read: &ReadResult) -> (result: Result<
        i64,
        ControlValueError,
    >)
        ensures
            result_view(result) == IntegerControlView::queried(ctrl_desc@.name, read_view(*read)),
    {
        IntegerControl::query_control_integer(ctrl_desc, read)
    }

    /// The device value to match for `read`: its integer, or the default
    /// that `description` declares where it has none.
    pub fn query_state(description: &ControlDescriptor, read: &ReadResult) -> (value: i64)
        ensures
            value == IntegerControlView::value_of(description@, read_view(*read)),
    {
        match MenuControl::query_control_integer(description, read) {
            Ok(v) => v,
            Err(_) => description.default,
        }
    }

    /// The write to send to the device when the user selects the entry at
    /// `position`.
    pub fn write_request(&self, position: usize) -> (request: Option<ControlWrite>)
        ensures
            request == self@.write_for(position as int),
    {
        if self.sensitive && position < self.entries.len() {
            let item = &self.entries[position];
            Some(ControlWrite { id: self.id, value: RawValue::Integer(item.id as i64) })
        } else {
            None
        }
    }

    /// Records what became of the write for the entry at `position`. The
    /// selection changes only if the device took the value. Returns whether
    /// the other controls are to be refreshed.
    pub fn apply(&mut self, position: usize, outcome: &WriteResult) -> (refresh: bool)
        ensures
            final(self)@ == old(self)@.applied(position as int, outcome is Ok),
            refresh == old(self)@.refresh_after(position as int, outcome is Ok),
    {
        if self.sensitive && position < self.entries.len() && outcome.is_ok() {
            self.selected = position;
            true
        } else {
            false
        }
    }

    /// The control the binding belongs to.
    pub fn id(&self) -> (id: u32)
        ensures
            id == self@.id,
    {
        self.id
    }

    /// The name shown beside the list.
    pub fn title(&self) -> (title: &String)
        ensures
            title@ == self@.title,
    {
        &self.title
    }

    /// The entries to choose from.
    pub fn entries(&self) -> (entries: &Vec<ItemData>)
        ensures
            items_view(entries@) == self@.entries,
    {
        &self.entries
    }

    /// The place of the selected entry.
    pub fn selected(&self) -> (selected: usize)
        ensures
            selected == self@.selected,
    {
        self.selected
    }

    /// Whether the user may choose.
    pub fn is_sensitive(&self) -> (sensitive: bool)
        ensures
            sensitive == self@.sensitive,
    {
        self.sensitive
    }
}

impl ControlUi for MenuControl {
    open spec fn shown(&self) -> BindingView {
        BindingView::Choice(self@)
    }

    /// Takes the selection anew from `read`, matched against the entries
    /// that `description` lists.
    fn update_value(&mut self, description: &ControlDescriptor, read: &ReadResult)
        ensures
            final(self)@ == old(self)@.with_value(description@, read_view(*read)),
            has_match(description@.items->0, IntegerControlView::value_of(description@, read_view(*read)))
                ==> is_first_match(
                description@.items->0,
                IntegerControlView::value_of(description@, read_view(*read)),
                final(self)@.selected,
            ),
            !has_match(description@.items->0, IntegerControlView::value_of(description@, read_view(*read)))
                ==> final(self)@.selected == 0,
    {
        let value = MenuControl::query_state(description, read);
        match &description.items {
            Some(ctrl_items) => {
                let new_selection = MenuControl::selected_position(ctrl_items, value);
                let old_selection = self.selected;
                if new_selection != old_selection {
                    self.selected = new_selection;
                }
            },
            None => unreached(),
        }
    }

    fn update_state(&mut self, description: &ControlDescriptor)
        ensures
            final(self)@ == old(self)@.with_state(description@),
    {
        self.sensitive = description.flags.is_interactive();
    }

    /// A choice has no default to go back to: nothing changes.
    fn reset_default(&mut self)
        ensures
            final(self)@ == old(self)@,
    {
    }
}

} // verus!
