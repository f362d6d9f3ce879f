use vstd::prelude::*;
use vstd::string::StringExecFns;
use crate::controls::control_ui::{BindingView, ControlUi};
use crate::controls::control_value_error::{result_view, ControlValueError};
use crate::device::{read_view, ControlDescriptor, ControlWrite, DescriptorView, RawValue, ReadResult, WriteResult};

verus! {

/// The binding of a numeric control: a value on a scale with bounds and a
/// step.
///
/// It holds the value last confirmed by the device: one that was read, or
/// one that was written with success.
#[derive(Debug)]
pub struct IntegerControl {
    id: u32,
    title: String,
    default: i64,
    lower: i64,
    upper: i64,
    step: u64,
    value: i64,
    sensitive: bool,
}

/// What an [`IntegerControl`] stands for.
pub struct IntegerControlView {
    /// The control the binding belongs to.
    pub id: u32,
    /// The name shown beside the scale.
    pub title: Seq<char>,
    /// The value that a reset goes back to.
    pub default: i64,
    /// The lower end of the scale, inclusive.
    pub lower: i64,
    /// The upper end of the scale, inclusive.
    pub upper: i64,
    /// The distance between two neighbouring values of the scale.
    pub step: u64,
    /// The value shown.
    pub value: i64,
    /// Whether the user may move the scale.
    pub sensitive: bool,
}

impl View for IntegerControl {
    type V = IntegerControlView;

    closed spec fn view(&self) -> IntegerControlView {
        IntegerControlView {
            id: self.id,
            title: self.title@,
            default: self.default,
            lower: self.lower,
            upper: self.upper,
            step: self.step,
            value: self.value,
            sensitive: self.sensitive,
        }
    }
}

impl IntegerControlView {
    /// The integer that a read of the control `name` gave, or the reason
    /// why it gave none: the read failed, or the value is no integer.
    pub open spec fn queried(name: Seq<char>, read: Result<RawValue, Seq<char>>) -> Result<
        i64,
        Seq<char>,
    > {
        match read {
            Ok(RawValue::Integer(value)) => Ok(value),
            Ok(RawValue::Boolean(_)) => Err("Value of "@ + name + " is not an integer"@),
            Err(message) => Err(message),
        }
    }

    /// The value to show after a read of the control that `description`
    /// describes: what was read, or the declared default where nothing was.
    pub open spec fn value_of(description: DescriptorView, read: Result<RawValue, Seq<char>>) -> i64 {
        match Self::queried(description.name, read) {
            Ok(value) => value,
            Err(_) => description.default,
        }
    }

    /// The binding made for `description`, given what a read of its value
    /// gave.
    pub open spec fn created(description: DescriptorView, read: Result<RawValue, Seq<char>>) -> Self {
        IntegerControlView {
            id: description.id,
            title: description.name,
            default: description.default,
            lower: description.minimum,
            upper: description.maximum,
            step: description.step,
            value: Self::value_of(description, read),
            sensitive: description.flags.spec_is_interactive(),
        }
    }

    /// The binding after its enablement was taken anew from `description`.
    pub open spec fn with_state(self, description: DescriptorView) -> Self {
        IntegerControlView { sensitive: description.flags.spec_is_interactive(), ..self }
    }

    /// The binding after its value was taken anew from a read.
    pub open spec fn with_value(self, description: DescriptorView, read: Result<RawValue, Seq<char>>) -> Self {
        IntegerControlView { value: Self::value_of(description, read), ..self }
    }

    /// The binding back at its default.
    pub open spec fn reset(self) -> Self {
        IntegerControlView { value: self.default, ..self }
    }

    /// The write that moving the scale to `value` calls for; none while the
    /// user may not move it.
    pub open spec fn write_for(self, value: i64) -> Option<ControlWrite> {
        if self.sensitive {
            Some(ControlWrite { id: self.id, value: RawValue::Integer(value) })
        } else {
            None
        }
    }

    /// The binding after the write for `value` was attempted; `written`
    /// says whether the device took it.
    pub open spec fn applied(self, value: i64, written: bool) -> Self {
        if self.sensitive && written {
            IntegerControlView { value, ..self }
        } else {
            self
        }
    }

    /// Whether the default lies within the bounds of the scale.
    pub open spec fn default_within_bounds(self) -> bool {
        self.lower <= self.default <= self.upper
    }
}

impl IntegerControl {
    /// Binds the control that `description` describes. `read` is what
    /// reading its current value from the device gave.
    pub fn new(description: &ControlDescriptor, read: &ReadResult) -> (control: IntegerControl)
        ensures
            control@ == IntegerControlView::created(description@, read_view(*read)),
    {
        let sensitive = description.flags.is_interactive();
        let value = IntegerControl::query_state(description, read);
        IntegerControl {
            id: description.id,
            title: description.name.clone(),
            default: description.default,
            lower: description.minimum,
            upper: description.maximum,
            step: description.step,
            value,
            sensitive,
        }
    }

    /// The integer in `read`, or the reason why there is none.
    pub fn query_control_integer(ctrl_desc: &ControlDescriptor, read: &ReadResult) -> (result: Result<
        i64,
        ControlValueError,
    >)
        ensures
            result_view(result) == IntegerControlView::queried(ctrl_desc@.name, read_view(*read)),
    {
        match read {
            Ok(RawValue::Integer(int_val)) => Ok(*int_val),
            Ok(RawValue::Boolean(_)) => {
                let mut message = String::from_str("Value of ");
                message.append(ctrl_desc.name.as_str());
                message.append(" is not an integer");
                Err(ControlValueError::new(message))
            },
            Err(e) => Err(ControlValueError::new(e.message.clone())),
        }
    }

    /// The value to show for `read`: its integer, or the default that
    /// `description` declares where it has none.
    pub fn query_state(description: &ControlDescriptor, read: &ReadResult) -> (value: i64)
        ensures
            value == IntegerControlView::value_of(description@, read_view(*read)),
    {
        match IntegerControl::query_control_integer(description, read) {
            Ok(v) => v,
            Err(_) => description.default,
        }
    }

    /// The write to send to the device when the user moves the scale to
    /// `value`.
    pub fn write_request(&self, value: i64) -> (request: Option<ControlWrite>)
        ensures
            request == self@.write_for(value),
    {
        if self.sensitive {
            Some(ControlWrite { id: self.id, value: RawValue::Integer(value) })
        } else {
            None
        }
    }

    /// Records what became of the write for `value`. The value changes only
    /// if the device took it. A numeric edit never asks for a refresh of
    /// the other controls.
    pub fn apply(&mut self, value: i64, outcome: &WriteResult) -> (refresh: bool)
        ensures
            final(self)@ == old(self)@.applied(value, outcome is Ok),
            !refresh,
    {
        if self.sensitive && outcome.is_ok() {
            self.value = value;
        }
        false
    }

    /// The control the binding belongs to.
    pub fn id(&self) -> (id: u32)
        ensures
            id == self@.id,
    {
        self.id
    }

    /// The name shown beside the scale.
    pub fn title(&self) -> (title: &String)
        ensures
            title@ == self@.title,
    {
        &self.title
    }

    /// The value that a reset goes back to.
    pub fn default_value(&self) -> (default: i64)
        ensures
            default == self@.default,
    {
        self.default
    }

    /// The lower end of the scale, inclusive.
    pub fn lower(&self) -> (lower: i64)
        ensures
            lower == self@.lower,
    {
        self.lower
    }

    /// The upper end of the scale, inclusive.
    pub fn upper(&self) -> (upper: i64)
        ensures
            upper == self@.upper,
    {
        self.upper
    }

    /// The distance between two neighbouring values of the scale.
    pub fn step(&self) -> (step: u64)
        ensures
            step == self@.step,
    {
        self.step
    }

    /// The value shown.
    pub fn value(&self) -> (value: i64)
        ensures
            value == self@.value,
    {
        self.value
    }

    /// Whether the user may move the scale.
    pub fn is_sensitive(&self) -> (sensitive: bool)
        ensures
            sensitive == self@.sensitive,
    {
        self.sensitive
    }
}

impl ControlUi for IntegerControl {
    open spec fn shown(&self) -> BindingView {
        BindingView::Range(self@)
    }

    fn update_value(&mut self, description: &ControlDescriptor, read: &ReadResult)
        ensures
            final(self)@ == old(self)@.with_value(description@, read_view(*read)),
    {
        let old_value = self.value;
        let new_value = IntegerControl::query_state(description, read);
        if new_value != old_value {
            self.value = new_value;
        }
    }

    fn update_state(&mut self, description: &ControlDescriptor)
        ensures
            final(self)@ == old(self)@.with_state(description@),
    {
        self.sensitive = description.flags.is_interactive();
    }

    /// Goes back to the default, whatever the value was.
    fn reset_default(&mut self)
        ensures
            final(self)@ == old(self)@.reset(),
            final(self)@.value == old(self)@.default,
    {
        self.value = self.default;
    }
}

/// A scale made for a descriptor whose default lies between its minimum and
/// its maximum has its default within its bounds, and a reset brings it to
/// that default whatever it showed before.
pub proof fn lemma_reset_yields_default(
    description: DescriptorView,
    read: Result<RawValue, Seq<char>>,
    shown: i64,
)
    requires
        description.minimum <= description.default <= description.maximum,
    ensures
        IntegerControlView::created(description, read).default_within_bounds(),
        (IntegerControlView { value: shown, ..IntegerControlView::created(description, read) }).reset().value
            == description.default,
{
}

/// Nothing that happens to a scale moves its bounds or its default: what
/// holds of them when the scale is made holds for good.
pub proof fn lemma_bounds_are_kept(
    control: IntegerControlView,
    description: DescriptorView,
    read: Result<RawValue, Seq<char>>,
    value: i64,
    written: bool,
)
    ensures
        control.with_state(description).default_within_bounds() == control.default_within_bounds(),
        control.with_value(description, read).default_within_bounds() == control.default_within_bounds(),
        control.applied(value, written).default_within_bounds() == control.default_within_bounds(),
        control.reset().default_within_bounds() == control.default_within_bounds(),
        control.reset().value == control.default,
{
}

} // verus!
