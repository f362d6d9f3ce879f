use vstd::prelude::*;
use crate::controls::boolean_control::{BooleanControl, BooleanControlView};
use crate::controls::button_control::{ButtonControl, ButtonControlView};
use crate::controls::integer_control::{IntegerControl, IntegerControlView};
use crate::controls::menu_control::{MenuControl, MenuControlView};
use crate::device::{
    read_view, ControlCategory, ControlDescriptor, ControlType, ControlWrite, DescriptorView, RawValue,
    ReadResult, WriteResult,
};

verus! {

/// The binding of one control, whatever its kind.
#[derive(Debug)]
pub enum ControlBinding {
    Switch(BooleanControl),
    Range(IntegerControl),
    Choice(MenuControl),
    Action(ButtonControl),
}

/// What a [`ControlBinding`] stands for.
pub enum BindingView {
    Switch(BooleanControlView),
    Range(IntegerControlView),
    Choice(MenuControlView),
    Action(ButtonControlView),
}

impl View for ControlBinding {
    type V = BindingView;

    open spec fn view(&self) -> BindingView {
        match self {
            ControlBinding::Switch(control) => BindingView::Switch(control@),
            ControlBinding::Range(control) => BindingView::Range(control@),
            ControlBinding::Choice(control) => BindingView::Choice(control@),
            ControlBinding::Action(control) => BindingView::Action(control@),
        }
    }
}

/// No binding exists for a control of this declared type.
#[derive(Debug, Clone, Copy, PartialEq, Eq, Structural)]
pub struct UnsupportedControlCategory {
    /// The control that was passed over.
    pub id: u32,
    /// Its declared type.
    pub typ: ControlType,
}

/// What a user does to a binding: one kind of edit for each kind of
/// binding.
#[derive(Debug, Clone, Copy, PartialEq, Eq, Structural)]
pub enum UserEdit {
    /// Sets a switch on or off.
    Switch(bool),
    /// Moves a scale to a value.
    Range(i64),
    /// Selects the entry at a place of a list.
    Choice(usize),
    /// Presses a button.
    Action,
}

impl BindingView {
    /// The control the binding belongs to.
    pub open spec fn id(self) -> u32 {
        match self {
            BindingView::Switch(control) => control.id,
            BindingView::Range(control) => control.id,
            BindingView::Choice(control) => control.id,
            BindingView::Action(control) => control.id,
        }
    }

    /// Whether the user may operate the binding.
    pub open spec fn sensitive(self) -> bool {
        match self {
            BindingView::Switch(control) => control.sensitive,
            BindingView::Range(control) => control.sensitive,
            BindingView::Choice(control) => control.sensitive,
            BindingView::Action(control) => control.sensitive,
        }
    }

    /// Whether the binding shows a value read from the device.
    pub open spec fn has_value(self) -> bool {
        !(self is Action)
    }

    /// The binding made for `description`, given what a read of its value
    /// gave; none for a boundary and for an unsupported control.
    pub open spec fn created(description: DescriptorView, read: Result<RawValue, Seq<char>>) -> Option<
        BindingView,
    > {
        match description.category() {
            ControlCategory::Switch => Some(
                BindingView::Switch(BooleanControlView::created(description, read)),
            ),
            ControlCategory::Range => Some(
                BindingView::Range(IntegerControlView::created(description, read)),
            ),
            ControlCategory::Choice => Some(
                BindingView::Choice(MenuControlView::created(description, read)),
            ),
            ControlCategory::Action => Some(BindingView::Action(ButtonControlView::created(description))),
            ControlCategory::Boundary | ControlCategory::Unsupported => None,
        }
    }

    /// Whether the binding can be brought up to date from `description`: a
    /// choice needs the list of entries to match against.
    pub open spec fn accepts(self, description: DescriptorView) -> bool {
        self is Choice ==> description.items is Some
    }

    /// The binding after its enablement was taken anew from `description`.
    pub open spec fn with_state(self, description: DescriptorView) -> BindingView {
        match self {
            BindingView::Switch(control) => BindingView::Switch(control.with_state(description)),
            BindingView::Range(control) => BindingView::Range(control.with_state(description)),
            BindingView::Choice(control) => BindingView::Choice(control.with_state(description)),
            BindingView::Action(control) => BindingView::Action(control.with_state(description)),
        }
    }

    /// The binding after its value was taken anew from a read of the
    /// control that `description` describes.
    pub open spec fn with_value(self, description: DescriptorView, read: Result<RawValue, Seq<char>>) -> BindingView {
        match self {
            BindingView::Switch(control) => BindingView::Switch(control.with_value(description, read)),
            BindingView::Range(control) => BindingView::Range(control.with_value(description, read)),
            BindingView::Choice(control) => BindingView::Choice(control.with_value(description, read)),
            BindingView::Action(control) => self,
        }
    }

    /// The binding brought up to date: first its enablement, then its
    /// value.
    pub open spec fn refreshed(self, description: DescriptorView, read: Result<RawValue, Seq<char>>) -> BindingView {
        self.with_state(description).with_value(description, read)
    }

    /// The binding back at its default. Only a scale has one.
    pub open spec fn reset(self) -> BindingView {
        match self {
            BindingView::Range(control) => BindingView::Range(control.reset()),
            _ => self,
        }
    }

    /// The write that `edit` calls for; none where the edit is of another
    /// kind than the binding, or the binding does not take it.
    pub open spec fn write_for(self, edit: UserEdit) -> Option<ControlWrite> {
        match (self, edit) {
            (BindingView::Switch(control), UserEdit::Switch(active)) => control.write_for(active),
            (BindingView::Range(control), UserEdit::Range(value)) => control.write_for(value),
            (BindingView::Choice(control), UserEdit::Choice(position)) => control.write_for(
                position as int,
            ),
            (BindingView::Action(control), UserEdit::Action) => control.write_for(),
            _ => None,
        }
    }

    /// The binding after the write for `edit` was attempted; `written` says
    /// whether the device took it. Only a write that was called for and
    /// taken changes anything.
    pub open spec fn applied(self, edit: UserEdit, written: bool) -> BindingView {
        match (self, edit) {
            (BindingView::Switch(control), UserEdit::Switch(active)) => BindingView::Switch(
                control.applied(active, written),
            ),
            (BindingView::Range(control), UserEdit::Range(value)) => BindingView::Range(
                control.applied(value, written),
            ),
            (BindingView::Choice(control), UserEdit::Choice(position)) => BindingView::Choice(
                control.applied(position as int, written),
            ),
            _ => self,
        }
    }

    /// Whether the other controls are to be refreshed after the write for
    /// `edit`: after any write that was called for and taken, but that of a
    /// scale.
    pub open spec fn refresh_after(self, edit: UserEdit, written: bool) -> bool {
        match (self, edit) {
            (BindingView::Switch(control), UserEdit::Switch(_)) => control.refresh_after(written),
            (BindingView::Choice(control), UserEdit::Choice(position)) => control.refresh_after(
                position as int,
                written,
            ),
            (BindingView::Action(control), UserEdit::Action) => control.refresh_after(written),
            _ => false,
        }
    }
}

/// What every binding offers, whatever its kind: it can be brought up to
/// date from the device, and be brought back to its default.
pub trait ControlUi {
    /// What the binding shows.
    spec fn shown(&self) -> BindingView;

    /// Takes the value anew from `read`, the result of reading the control
    /// that `description` describes. Nothing else changes.
    ///
    /// A choice cannot be matched against a description without entries.
    fn update_value(&mut self, description: &ControlDescriptor, read: &ReadResult)
        requires
            old(self).shown().accepts(description@),
        ensures
            final(self).shown() == old(self).shown().with_value(description@, read_view(*read)),
    ;

    /// Takes the enablement anew from the flags of `description`. Nothing
    /// else changes.
    fn update_state(&mut self, description: &ControlDescriptor)
        ensures
            final(self).shown() == old(self).shown().with_state(description@),
    ;

    /// Goes back to the default, where the binding has one.
    fn reset_default(&mut self)
        ensures
            final(self).shown() == old(self).shown().reset(),
    ;
}

impl ControlBinding {
    /// Makes the binding that the declared type of `description` calls for.
    /// `read` is what reading the control's value from the device gave; an
    /// action has no value, and its `read` is ignored. Nothing is made for
    /// a boundary or a control of an unsupported type: the error names the
    /// control and its type.
    ///
    /// A choice control without a list of entries cannot be bound.
    pub fn create(description: &ControlDescriptor, read: &ReadResult) -> (binding: Result<
        ControlBinding,
        UnsupportedControlCategory,
    >)
        requires
            description@.is_consistent(),
        ensures
            match binding {
                Ok(b) => BindingView::created(description@, read_view(*read)) == Some(b@),
                Err(e) => BindingView::created(description@, read_view(*read)) is None && e == (
                UnsupportedControlCategory { id: description@.id, typ: description@.typ }),
            },
            binding is Ok <==> description@.category().spec_is_bindable(),
            binding matches Ok(b) ==> b@.id() == description@.id,
    {
        match description.category() {
            ControlCategory::Switch => Ok(ControlBinding::Switch(BooleanControl::new(description, read))),
            ControlCategory::Range => Ok(ControlBinding::Range(IntegerControl::new(description, read))),
            ControlCategory::Choice => Ok(ControlBinding::Choice(MenuControl::new(description, read))),
            ControlCategory::Action => Ok(ControlBinding::Action(ButtonControl::new(description))),
            ControlCategory::Boundary | ControlCategory::Unsupported => Err(
                UnsupportedControlCategory { id: description.id, typ: description.typ },
            ),
        }
    }

    /// Whether the binding can be brought up to date from `description`.
    pub fn accepts(&self, description: &ControlDescriptor) -> (accepted: bool)
        ensures
            accepted == self@.accepts(description@),
    {
        match self {
            ControlBinding::Choice(_) => description.items.is_some(),
            _ => true,
        }
    }

    /// The write to send to the device for `edit`.
    pub fn write_request(&self, edit: UserEdit) -> (request: Option<ControlWrite>)
        ensures
            request == self@.write_for(edit),
    {
        match (self, edit) {
            (ControlBinding::Switch(control), UserEdit::Switch(active)) => control.write_request(active),
            (ControlBinding::Range(control), UserEdit::Range(value)) => control.write_request(value),
            (ControlBinding::Choice(control), UserEdit::Choice(position)) => control.write_request(
                position,
            ),
            (ControlBinding::Action(control), UserEdit::Action) => control.write_request(),
            _ => None,
        }
    }

    /// Records what became of the write for `edit`. Returns whether the
    /// other controls are to be refreshed.
    pub fn apply(&mut self, edit: UserEdit, outcome: &WriteResult) -> (refresh: bool)
        ensures
            final(self)@ == old(self)@.applied(edit, outcome is Ok),
            refresh == old(self)@.refresh_after(edit, outcome is Ok),
    {
        match (self, edit) {
            (ControlBinding::Switch(control), UserEdit::Switch(active)) => control.apply(active, outcome),
            (ControlBinding::Range(control), UserEdit::Range(value)) => control.apply(value, outcome),
            (ControlBinding::Choice(control), UserEdit::Choice(position)) => control.apply(
                position,
                outcome,
            ),
            (ControlBinding::Action(control), UserEdit::Action) => control.apply(outcome),
            _ => false,
        }
    }

    /// The control the binding belongs to.
    pub fn id(&self) -> (id: u32)
        ensures
            id == self@.id(),
    {
        match self {
            ControlBinding::Switch(control) => control.id(),
            ControlBinding::Range(control) => control.id(),
            ControlBinding::Choice(control) => control.id(),
            ControlBinding::Action(control) => control.id(),
        }
    }

    /// Whether the user may operate the binding.
    pub fn is_sensitive(&self) -> (sensitive: bool)
        ensures
            sensitive == self@.sensitive(),
    {
        match self {
            ControlBinding::Switch(control) => control.is_sensitive(),
            ControlBinding::Range(control) => control.is_sensitive(),
            ControlBinding::Choice(control) => control.is_sensitive(),
            ControlBinding::Action(control) => control.is_sensitive(),
        }
    }

    /// Whether the binding shows a value read from the device.
    pub fn has_value(&self) -> (valued: bool)
        ensures
            valued == self@.has_value(),
    {
        match self {
            ControlBinding::Action(_) => false,
            _ => true,
        }
    }
}

impl ControlUi for ControlBinding {
    open spec fn shown(&self) -> BindingView {
        self@
    }

    fn update_value(&mut self, description: &ControlDescriptor, read: &ReadResult) {
        match self {
            ControlBinding::Switch(control) => control.update_value(description, read),
            ControlBinding::Range(control) => control.update_value(description, read),
            ControlBinding::Choice(control) => control.update_value(description, read),
            ControlBinding::Action(control) => control.update_value(description, read),
        }
    }

    fn update_state(&mut self, description: &ControlDescriptor) {
        match self {
            ControlBinding::Switch(control) => control.update_state(description),
            ControlBinding::Range(control) => control.update_state(description),
            ControlBinding::Choice(control) => control.update_state(description),
            ControlBinding::Action(control) => control.update_state(description),
        }
    }

    fn reset_default(&mut self) {
        match self {
            ControlBinding::Switch(control) => control.reset_default(),
            ControlBinding::Range(control) => control.reset_default(),
            ControlBinding::Choice(control) => control.reset_default(),
            ControlBinding::Action(control) => control.reset_default(),
        }
    }
}

/// Taking the enablement twice from the same description changes nothing
/// the second time.
pub proof fn lemma_update_state_is_idempotent(binding: BindingView, description: DescriptorView)
    ensures
        binding.with_state(description).with_state(description) == binding.with_state(description),
{
}

/// Taking the value twice from the same description and the same read
/// changes nothing the second time.
pub proof fn lemma_update_value_is_idempotent(
    binding: BindingView,
    description: DescriptorView,
    read: Result<RawValue, Seq<char>>,
)
    ensures
        binding.with_value(description, read).with_value(description, read) == binding.with_value(
            description,
            read,
        ),
{
}

/// Bringing a binding up to date twice from the same description and the
/// same read changes nothing the second time.
pub proof fn lemma_refresh_is_idempotent(
    binding: BindingView,
    description: DescriptorView,
    read: Result<RawValue, Seq<char>>,
)
    ensures
        binding.refreshed(description, read).refreshed(description, read) == binding.refreshed(
            description,
            read,
        ),
{
}

/// Of two refreshes in a row only the second one shows: whatever a refresh
/// takes from the device, it takes anew.
pub proof fn lemma_last_refresh_wins(
    binding: BindingView,
    first: DescriptorView,
    first_read: Result<RawValue, Seq<char>>,
    second: DescriptorView,
    second_read: Result<RawValue, Seq<char>>,
)
    ensures
        binding.refreshed(first, first_read).refreshed(second, second_read) == binding.refreshed(
            second,
            second_read,
        ),
{
}

/// Nothing that happens to a binding changes which control it belongs to,
/// or of which kind it is.
pub proof fn lemma_identity_is_kept(
    binding: BindingView,
    description: DescriptorView,
    read: Result<RawValue, Seq<char>>,
    edit: UserEdit,
    written: bool,
)
    ensures
        binding.with_state(description).id() == binding.id(),
        binding.with_value(description, read).id() == binding.id(),
        binding.refreshed(description, read).id() == binding.id(),
        binding.reset().id() == binding.id(),
        binding.applied(edit, written).id() == binding.id(),
        binding.with_state(description).has_value() == binding.has_value(),
        binding.with_value(description, read).has_value() == binding.has_value(),
        binding.refreshed(description, read).has_value() == binding.has_value(),
        binding.reset().has_value() == binding.has_value(),
        binding.applied(edit, written).has_value() == binding.has_value(),
{
}

/// A write that the device did not take changes nothing and asks for no
/// refresh: what a binding shows is never ahead of the device.
pub proof fn lemma_failed_write_changes_nothing(binding: BindingView, edit: UserEdit)
    ensures
        binding.applied(edit, false) == binding,
        !binding.refresh_after(edit, false),
{
}

} // verus!
