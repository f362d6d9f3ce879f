use vstd::prelude::*;
use vstd::string::StringExecFns;
use crate::controls::control_ui::{BindingView, ControlUi};
use crate::controls::control_value_error::{result_view, ControlValueError};
use crate::device::{read_view, ControlDescriptor, ControlWrite, DescriptorView, RawValue, ReadResult, WriteResult};

verus! {

/// The binding of an on/off control.
///
/// It holds the state last confirmed by the device: a value that was read,
/// or one that was written with success.
#[derive(Debug)]
pub struct BooleanControl {
    id: u32,
    title: String,
    active: bool,
    sensitive: bool,
}

/// What a [`BooleanControl`] stands for.
pub struct BooleanControlView {
    /// The control the binding belongs to.
    pub id: u32,
    /// The name shown beside the switch.
    pub title: Seq<char>,
    /// Whether the switch is on.
    pub active: bool,
    /// Whether the user may operate the switch.
    pub sensitive: bool,
}

impl View for BooleanControl {
    type V = BooleanControlView;

    closed spec fn view(&self) -> BooleanControlView {
        BooleanControlView {
            id: self.id,
            title: self.title@,
            active: self.active,
            sensitive: self.sensitive,
        }
    }
}

impl BooleanControlView {
    /// The boolean that a read of the control `name` gave, or the reason
    /// why it gave none: the read failed, or the value is no boolean.
    pub open spec fn queried(name: Seq<char>, read: Result<RawValue, Seq<char>>) -> Result<
        bool,
        Seq<char>,
    > {
        match read {
            Ok(RawValue::Boolean(value)) => Ok(value),
            Ok(RawValue::Integer(_)) => Err("Value of "@ + name + " is not a boolean"@),
            Err(message) => Err(message),
        }
    }

    /// The state to show after a read: what was read, or off where nothing
    /// was.
    pub open spec fn state_of(name: Seq<char>, read: Result<RawValue, Seq<char>>) -> bool {
        match Self::queried(name, read) {
            Ok(value) => value,
            Err(_) => false,
        }
    }

    /// The binding made for `description`, given what a read of its value
    /// gave.
    pub open spec fn created(description: DescriptorView, read: Result<RawValue, Seq<char>>) -> Self {
        BooleanControlView {
            id: description.id,
            title: description.name,
            active: Self::state_of(description.name, read),
            sensitive: description.flags.spec_is_interactive(),
        }
    }

    /// The binding after its enablement was taken anew from `description`.
    pub open spec fn with_state(self, description: DescriptorView) -> Self {
        BooleanControlView { sensitive: description.flags.spec_is_interactive(), ..self }
    }

    /// The binding after its value was taken anew from a read.
    pub open spec fn with_value(self, description: DescriptorView, read: Result<RawValue, Seq<char>>) -> Self {
        BooleanControlView { active: Self::state_of(description.name, read), ..self }
    }

    /// The write that setting the switch to `active` calls for; none while
    /// the user may not operate it.
    pub open spec fn write_for(self, active: bool) -> Option<ControlWrite> {
        if self.sensitive {
            Some(ControlWrite { id: self.id, value: RawValue::Boolean(active) })
        } else {
            None
        }
    }

    /// The binding after the write for `active` was attempted; `written`
    /// says whether the device took it.
    pub open spec fn applied(self, active: bool, written: bool) -> Self {
        if self.sensitive && written {
            BooleanControlView { active, ..self }
        } else {
            self
        }
    }

    /// Whether the other controls are to be refreshed after the write.
    pub open spec fn refresh_after(self, written: bool) -> bool {
        self.sensitive && written
    }
}

impl BooleanControl {
    /// Binds the control that `description` describes. `read` is what
    /// reading its current value from the device gave.
    pub fn new(description: &ControlDescriptor, read: &ReadResult) -> (control: BooleanControl)
        ensures
            control@ == BooleanControlView::created(description@, read_view(*read)),
    {
        let sensitive = description.flags.is_interactive();
        let active = BooleanControl::query_state(description, read);
        BooleanControl { id: description.id, title: description.name.clone(), active, sensitive }
    }

    /// The boolean in `read`, or the reason why there is none.
    pub fn query_control_boolean(ctrl_desc: &ControlDescriptor, read: &ReadResult) -> (result: Result<
        bool,
        ControlValueError,
    >)
        ensures
            result_view(result) == BooleanControlView::queried(ctrl_desc@.name, read_view(*read)),
    {
        match read {
            Ok(RawValue::Boolean(bool_val)) => Ok(*bool_val),
            Ok(RawValue::Integer(_)) => {
                let mut message = String::from_str("Value of ");
                message.append(ctrl_desc.name.as_str());
                message.append(" is not a boolean");
                Err(ControlValueError::new(message))
            },
            Err(e) => Err(ControlValueError::new(e.message.clone())),
        }
    }

    /// The state to show for `read`: its boolean, or off where it has none.
    pub fn query_state(description: &ControlDescriptor, read: &ReadResult) -> (active: bool)
        ensures
            active == BooleanControlView::state_of(description@.name, read_view(*read)),
    {
        match BooleanControl::query_control_boolean(description, read) {
            Ok(v) => v,
            Err(_) => false,
        }
    }

    /// The write to send to the device when the user sets the switch to
    /// `active`.
    pub fn write_request(&self, active: bool) -> (request: Option<ControlWrite>)
        ensures
            request == self@.write_for(active),
    {
        if self.sensitive {
            Some(ControlWrite { id: self.id, value: RawValue::Boolean(active) })
        } else {
            None
        }
    }

    /// Records what became of the write for `active`. The state changes
    /// only if the device took the value. Returns whether the other
    /// controls are to be refreshed.
    pub fn apply(&mut self, active: bool, outcome: &WriteResult) -> (refresh: bool)
        ensures
            final(self)@ == old(self)@.applied(active, outcome is Ok),
            refresh == old(self)@.refresh_after(outcome is Ok),
    {
        if self.sensitive && outcome.is_ok() {
            self.active = active;
            true
        } else {
            false
        }
    }

    /// The control the binding belongs to.
    pub fn id(&self) -> (id: u32)
        ensures
            id == self@.id,
    {
        self.id
    }

    /// The name shown beside the switch.
    pub fn title(&self) -> (title: &String)
        ensures
            title@ == self@.title,
    {
        &self.title
    }

    /// Whether the switch is on.
    pub fn is_active(&self) -> (active: bool)
        ensures
            active == self@.active,
    {
        self.active
    }

    /// Whether the user may operate the switch.
    pub fn is_sensitive(&self) -> (sensitive: bool)
        ensures
            sensitive == self@.sensitive,
    {
        self.sensitive
    }
}

impl ControlUi for BooleanControl {
    open spec fn shown(&self) -> BindingView {
        BindingView::Switch(self@)
    }

    fn update_value(&mut self, description: &ControlDescriptor, read: &ReadResult)
        ensures
            final(self)@ == old(self)@.with_value(description@, read_view(*read)),
    {
        let active = BooleanControl::query_state(description, read);
        self.active = active;
    }

    fn update_state(&mut self, description: &ControlDescriptor)
        ensures
            final(self)@ == old(self)@.with_state(description@),
    {
        self.sensitive = description.flags.is_interactive();
    }

    /// A switch has no default to go back to: nothing changes.
    fn reset_default(&mut self)
        ensures
            final(self)@ == old(self)@,
    {
    }
}

} // verus!
