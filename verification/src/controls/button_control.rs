use vstd::prelude::*;
use crate::controls::control_ui::{BindingView, ControlUi};
use crate::device::{ControlDescriptor, ControlWrite, DescriptorView, RawValue, ReadResult, WriteResult};

verus! {

/// The binding of a momentary action: a button without a value.
#[derive(Debug)]
pub struct ButtonControl {
    id: u32,
    label: String,
    sensitive: bool,
}

/// What a [`ButtonControl`] stands for.
pub struct ButtonControlView {
    /// The control the binding belongs to.
    pub id: u32,
    /// The text on the button.
    pub label: Seq<char>,
    /// Whether the user may press the button.
    pub sensitive: bool,
}

impl View for ButtonControl {
    type V = ButtonControlView;

    closed spec fn view(&self) -> ButtonControlView {
        ButtonControlView { id: self.id, label: self.label@, sensitive: self.sensitive }
    }
}

impl ButtonControlView {
    /// The binding made for `description`.
    pub open spec fn created(description: DescriptorView) -> Self {
        ButtonControlView {
            id: description.id,
            label: description.name,
            sensitive: description.flags.spec_is_interactive(),
        }
    }

    /// The binding after its enablement was taken anew from `description`.
    pub open spec fn with_state(self, description: DescriptorView) -> Self {
        ButtonControlView { sensitive: description.flags.spec_is_interactive(), ..self }
    }

    /// The write that a press calls for. The device acts on the write
    /// itself and ignores the value, which is always 0. None while the user
    /// may not press.
    pub open spec fn write_for(self) -> Option<ControlWrite> {
        if self.sensitive {
            Some(ControlWrite { id: self.id, value: RawValue::Integer(0) })
        } else {
            None
        }
    }

    /// Whether the other controls are to be refreshed after the write of a
    /// press; `written` says whether the device took it.
    pub open spec fn refresh_after(self, written: bool) -> bool {
        self.sensitive && written
    }
}

impl ButtonControl {
    /// Binds the action that `description` describes.
    pub fn new(description: &ControlDescriptor) -> (control: ButtonControl)
        ensures
            control@ == ButtonControlView::created(description@),
    {
        let sensitive = description.flags.is_interactive();
        ButtonControl { id: description.id, label: description.name.clone(), sensitive }
    }

    /// The write to send to the device when the user presses the button.
    pub fn write_request(&self) -> (request: Option<ControlWrite>)
        ensures
            request == self@.write_for(),
    {
        if self.sensitive {
            Some(ControlWrite { id: self.id, value: RawValue::Integer(0) })
        } else {
            None
        }
    }

    /// Records what became of the write of a press. The binding itself has
    /// nothing to change. Returns whether the other controls are to be
    /// refreshed.
    pub fn apply(&mut self, outcome: &WriteResult) -> (refresh: bool)
        ensures
            final(self)@ == old(self)@,
            refresh == old(self)@.refresh_after(outcome is Ok),
    {
        self.sensitive && outcome.is_ok()
    }

    /// The control the binding belongs to.
    pub fn id(&self) -> (id: u32)
        ensures
            id == self@.id,
    {
        self.id
    }

    /// The text on the button.
    pub fn label(&self) -> (label: &String)
        ensures
            label@ == self@.label,
    {
        &self.label
    }

    /// Whether the user may press the button.
    pub fn is_sensitive(&self) -> (sensitive: bool)
        ensures
            sensitive == self@.sensitive,
    {
        self.sensitive
    }
}

impl ControlUi for ButtonControl {
    open spec fn shown(&self) -> BindingView {
        BindingView::Action(self@)
    }

    /// An action has no value to take anew: nothing changes, and `read` is
    /// not looked at.
    fn update_value(&mut self, _description: &ControlDescriptor, _read: &ReadResult)
        ensures
            final(self)@ == old(self)@,
    {
    }

    fn update_state(&mut self, description: &ControlDescriptor)
        ensures
            final(self)@ == old(self)@.with_state(description@),
    {
        self.sensitive = description.flags.is_interactive();
    }

    /// An action has no default to go back to: nothing changes.
    fn reset_default(&mut self)
        ensures
            final(self)@ == old(self)@,
    {
    }
}

} // verus!
