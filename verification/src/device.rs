use vstd::prelude::*;
use crate::key_value_item::{items_view, ItemData, ItemView};

verus! {

/// The data type a device declares for a control.
#[derive(Debug, Clone, Copy, PartialEq, Eq, Structural)]
pub enum ControlType {
    Integer,
    Boolean,
    Menu,
    Button,
    Integer64,
    CtrlClass,
    Text,
    Bitmask,
    IntegerMenu,
    U8,
    U16,
    U32,
    Area,
}

/// What kind of binding, if any, a declared type calls for.
#[derive(Debug, Clone, Copy, PartialEq, Eq, Structural)]
pub enum ControlCategory {
    /// An on/off control.
    Switch,
    /// A numeric control with bounds and a step.
    Range,
    /// A momentary action without a value.
    Action,
    /// A selection among enumerated entries.
    Choice,
    /// No control at all: the marker that starts a class of controls.
    Boundary,
    /// A control the panel has no binding for.
    Unsupported,
}

impl ControlType {
    /// The category of a declared type. Every integer width is a range;
    /// text, bitmask and area controls are unsupported.
    pub open spec fn spec_category(self) -> ControlCategory {
        match self {
            ControlType::Boolean => ControlCategory::Switch,
            ControlType::Button => ControlCategory::Action,
            ControlType::CtrlClass => ControlCategory::Boundary,
            ControlType::Integer | ControlType::Integer64 | ControlType::U8 | ControlType::U16
            | ControlType::U32 => ControlCategory::Range,
            ControlType::IntegerMenu | ControlType::Menu => ControlCategory::Choice,
            ControlType::Area | ControlType::Bitmask | ControlType::Text => ControlCategory::Unsupported,
        }
    }

    #[verifier::when_used_as_spec(spec_category)]
    pub fn category(self) -> (category: ControlCategory)
        ensures
            category == self.spec_category(),
    {
        match self {
            ControlType::Boolean => ControlCategory::Switch,
            ControlType::Button => ControlCategory::Action,
            ControlType::CtrlClass => ControlCategory::Boundary,
            ControlType::Integer | ControlType::Integer64 | ControlType::U8 | ControlType::U16
            | ControlType::U32 => ControlCategory::Range,
            ControlType::IntegerMenu | ControlType::Menu => ControlCategory::Choice,
            ControlType::Area | ControlType::Bitmask | ControlType::Text => ControlCategory::Unsupported,
        }
    }
}

impl ControlCategory {
    /// Whether a control of this category gets a binding.
    pub open spec fn spec_is_bindable(self) -> bool {
        self == ControlCategory::Switch || self == ControlCategory::Range || self
            == ControlCategory::Action || self == ControlCategory::Choice
    }

    #[verifier::when_used_as_spec(spec_is_bindable)]
    pub fn is_bindable(self) -> (bindable: bool)
        ensures
            bindable == self.spec_is_bindable(),
    {
        match self {
            ControlCategory::Switch | ControlCategory::Range | ControlCategory::Action
            | ControlCategory::Choice => true,
            ControlCategory::Boundary | ControlCategory::Unsupported => false,
        }
    }

    /// Whether a binding of this category shows a value read from the device.
    pub open spec fn spec_has_value(self) -> bool {
        self == ControlCategory::Switch || self == ControlCategory::Range || self
            == ControlCategory::Choice
    }

    #[verifier::when_used_as_spec(spec_has_value)]
    pub fn has_value(self) -> (valued: bool)
        ensures
            valued == self.spec_has_value(),
    {
        match self {
            ControlCategory::Switch | ControlCategory::Range | ControlCategory::Choice => true,
            ControlCategory::Action | ControlCategory::Boundary | ControlCategory::Unsupported => false,
        }
    }
}

/// The control is permanently disabled and is to be ignored.
pub const FLAG_DISABLED: u32 = 0x0001;

/// The control can be read but not written.
pub const FLAG_READ_ONLY: u32 = 0x0004;

/// The control is inert for now, because of the state of other controls.
pub const FLAG_INACTIVE: u32 = 0x0010;

/// The control can be written but not read.
pub const FLAG_WRITE_ONLY: u32 = 0x0040;

/// The flag bits a device reports for a control.
#[derive(Debug, Clone, Copy, PartialEq, Eq, Structural)]
pub struct ControlFlags {
    pub bits: u32,
}

impl ControlFlags {
    /// The flags with exactly the bits of `bits` set.
    pub fn from_bits(bits: u32) -> (flags: ControlFlags)
        ensures
            flags.bits == bits,
    {
        ControlFlags { bits }
    }

    /// Whether every bit of `flag` is set.
    pub open spec fn spec_contains(self, flag: u32) -> bool {
        self.bits & flag == flag
    }

    #[verifier::when_used_as_spec(spec_contains)]
    pub fn contains(self, flag: u32) -> (held: bool)
        ensures
            held == self.spec_contains(flag),
    {
        self.bits & flag == flag
    }

    /// Whether the control is to be skipped altogether.
    pub open spec fn spec_is_disabled(self) -> bool {
        self.spec_contains(FLAG_DISABLED)
    }

    #[verifier::when_used_as_spec(spec_is_disabled)]
    pub fn is_disabled(self) -> (disabled: bool)
        ensures
            disabled == self.spec_is_disabled(),
    {
        self.contains(FLAG_DISABLED)
    }

    /// Whether a user may operate the control: it is neither read-only nor
    /// inactive.
    pub open spec fn spec_is_interactive(self) -> bool {
        !self.spec_contains(FLAG_READ_ONLY) && !self.spec_contains(FLAG_INACTIVE)
    }

    #[verifier::when_used_as_spec(spec_is_interactive)]
    pub fn is_interactive(self) -> (interactive: bool)
        ensures
            interactive == self.spec_is_interactive(),
    {
        let readonly = self.contains(FLAG_READ_ONLY);
        let inactive = self.contains(FLAG_INACTIVE);
        !readonly && !inactive
    }
}

/// A value as the device holds it.
#[derive(Debug, Clone, Copy, PartialEq, Eq, Structural)]
pub enum RawValue {
    Boolean(bool),
    Integer(i64),
}

/// The device could not list its controls, or could not read one.
#[derive(Debug, PartialEq, Eq)]
pub struct DeviceQueryError {
    pub message: String,
}

impl View for DeviceQueryError {
    type V = Seq<char>;

    open spec fn view(&self) -> Seq<char> {
        self.message@
    }
}

/// The device did not take a value written to it.
#[derive(Debug, PartialEq, Eq)]
pub struct DeviceWriteError {
    pub message: String,
}

impl View for DeviceWriteError {
    type V = Seq<char>;

    open spec fn view(&self) -> Seq<char> {
        self.message@
    }
}

/// What an attempt to read one control's value gave.
pub type ReadResult = Result<RawValue, DeviceQueryError>;

/// What an attempt to write one control's value gave.
pub type WriteResult = Result<(), DeviceWriteError>;

/// What a [`ReadResult`] stands for: the value, or the failure's message.
pub open spec fn read_view(read: ReadResult) -> Result<RawValue, Seq<char>> {
    match read {
        Ok(value) => Ok(value),
        Err(e) => Err(e@),
    }
}

/// What the device reports of one control.
#[derive(Debug, PartialEq, Eq)]
pub struct ControlDescriptor {
    /// Identifies the control on its device.
    pub id: u32,
    /// The declared data type.
    pub typ: ControlType,
    /// The name shown to the user.
    pub name: String,
    /// The least value, inclusive.
    pub minimum: i64,
    /// The greatest value, inclusive.
    pub maximum: i64,
    /// The distance between two neighbouring values.
    pub step: u64,
    /// The value the device starts with.
    pub default: i64,
    /// The flags.
    pub flags: ControlFlags,
    /// The entries of a choice control, in the device's order.
    pub items: Option<Vec<ItemData>>,
}

/// What a [`ControlDescriptor`] stands for.
pub struct DescriptorView {
    pub id: u32,
    pub typ: ControlType,
    pub name: Seq<char>,
    pub minimum: i64,
    pub maximum: i64,
    pub step: u64,
    pub default: i64,
    pub flags: ControlFlags,
    pub items: Option<Seq<ItemView>>,
}

impl View for ControlDescriptor {
    type V = DescriptorView;

    open spec fn view(&self) -> DescriptorView {
        DescriptorView {
            id: self.id,
            typ: self.typ,
            name: self.name@,
            minimum: self.minimum,
            maximum: self.maximum,
            step: self.step,
            default: self.default,
            flags: self.flags,
            items: match self.items {
                Some(items) => Some(items_view(items@)),
                None => None,
            },
        }
    }
}

impl DescriptorView {
    /// The category of the declared type.
    pub open spec fn category(self) -> ControlCategory {
        self.typ.spec_category()
    }

    /// Whether the descriptor starts a new class of controls.
    pub open spec fn is_boundary(self) -> bool {
        !self.flags.spec_is_disabled() && self.category() == ControlCategory::Boundary
    }

    /// Whether a binding is made for the descriptor: it is enabled and of a
    /// supported category.
    pub open spec fn is_bound(self) -> bool {
        !self.flags.spec_is_disabled() && self.category().spec_is_bindable()
    }

    /// Whether the binding made for the descriptor shows a value read from
    /// the device.
    pub open spec fn needs_value(self) -> bool {
        !self.flags.spec_is_disabled() && self.category().spec_has_value()
    }

    /// Whether the descriptor can be bound at all: a choice control comes
    /// with its list of entries.
    pub open spec fn is_consistent(self) -> bool {
        self.category() == ControlCategory::Choice ==> self.items is Some
    }
}

impl ControlDescriptor {
    /// The category of the declared type.
    pub fn category(&self) -> (category: ControlCategory)
        ensures
            category == self@.category(),
    {
        self.typ.category()
    }

    /// Whether the descriptor starts a new class of controls.
    pub fn is_boundary(&self) -> (boundary: bool)
        ensures
            boundary == self@.is_boundary(),
    {
        !self.flags.is_disabled() && self.typ.category() == ControlCategory::Boundary
    }

    /// Whether a binding is made for the descriptor.
    pub fn is_bound(&self) -> (bound: bool)
        ensures
            bound == self@.is_bound(),
    {
        !self.flags.is_disabled() && self.typ.category().is_bindable()
    }

    /// Whether the current value has to be read from the device before a
    /// binding is made for the descriptor.
    pub fn needs_value(&self) -> (needed: bool)
        ensures
            needed == self@.needs_value(),
    {
        !self.flags.is_disabled() && self.typ.category().has_value()
    }

    /// Whether a choice control comes with its list of entries.
    pub fn is_consistent(&self) -> (consistent: bool)
        ensures
            consistent == self@.is_consistent(),
    {
        match self.typ.category() {
            ControlCategory::Choice => self.items.is_some(),
            _ => true,
        }
    }
}

/// One control as the device showed it at one moment: its descriptor, and
/// what reading its value gave.
///
/// Only a control whose binding shows a value has to be read. For any
/// other, `value` is never looked at, and may hold whatever the caller has.
#[derive(Debug, PartialEq, Eq)]
pub struct ControlSnapshot {
    pub description: ControlDescriptor,
    pub value: ReadResult,
}

/// What a [`ControlSnapshot`] stands for.
pub struct SnapshotView {
    pub description: DescriptorView,
    pub value: Result<RawValue, Seq<char>>,
}

impl View for ControlSnapshot {
    type V = SnapshotView;

    open spec fn view(&self) -> SnapshotView {
        SnapshotView { description: self.description@, value: read_view(self.value) }
    }
}

/// The snapshots of `snapshots`, each as what it stands for.
pub open spec fn snapshots_view(snapshots: Seq<ControlSnapshot>) -> Seq<SnapshotView> {
    Seq::new(snapshots.len(), |i: int| snapshots[i]@)
}

/// What an attempt to list the controls of a device gave: a snapshot of
/// each control in the device's order, or the failure.
pub type Listing = Result<Vec<ControlSnapshot>, DeviceQueryError>;

/// What a [`Listing`] stands for.
pub open spec fn listing_view(listed: Listing) -> Result<Seq<SnapshotView>, Seq<char>> {
    match listed {
        Ok(snapshots) => Ok(snapshots_view(snapshots@)),
        Err(e) => Err(e@),
    }
}

/// What an attempt to attach to a device gave.
#[derive(Debug, PartialEq, Eq)]
pub enum DeviceAttach {
    /// The device could not be opened; the text says why.
    OpenFailed(String),
    /// The device was opened, and asked for its controls.
    Opened(Listing),
}

/// What a [`DeviceAttach`] stands for.
pub enum AttachView {
    OpenFailed(Seq<char>),
    Opened(Result<Seq<SnapshotView>, Seq<char>>),
}

impl View for DeviceAttach {
    type V = AttachView;

    open spec fn view(&self) -> AttachView {
        match self {
            DeviceAttach::OpenFailed(message) => AttachView::OpenFailed(message@),
            DeviceAttach::Opened(listed) => AttachView::Opened(listing_view(*listed)),
        }
    }
}

/// A value to be written to the control `id`.
#[derive(Debug, Clone, Copy, PartialEq, Eq, Structural)]
pub struct ControlWrite {
    pub id: u32,
    pub value: RawValue,
}

} // verus!
