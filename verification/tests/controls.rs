use camera_settings::controls::{
    BooleanControl, ButtonControl, ControlBinding, ControlUi, ControlValueError, IntegerControl,
    MenuControl, UnsupportedControlCategory, UserEdit,
};
use camera_settings::device::{
    ControlCategory, ControlDescriptor, ControlFlags, ControlType, ControlWrite, DeviceQueryError,
    DeviceWriteError, RawValue, ReadResult, WriteResult, FLAG_DISABLED, FLAG_INACTIVE, FLAG_READ_ONLY,
    FLAG_WRITE_ONLY,
};
use camera_settings::key_value_item::{clone_items, ItemData};

fn descriptor(id: u32, typ: ControlType, name: &str) -> ControlDescriptor {
    ControlDescriptor {
        id,
        typ,
        name: name.to_string(),
        minimum: 0,
        maximum: 100,
        step: 1,
        default: 50,
        flags: ControlFlags::from_bits(0),
        items: None,
    }
}

fn menu_descriptor(id: u32, name: &str, entries: &[(u32, &str)]) -> ControlDescriptor {
    let mut d = descriptor(id, ControlType::Menu, name);
    d.items = Some(
        entries.iter().map(|(id, label)| ItemData { id: *id, label: label.to_string() }).collect(),
    );
    d
}

fn failed_read(message: &str) -> ReadResult {
    Err(DeviceQueryError { message: message.to_string() })
}

fn failed_write(message: &str) -> WriteResult {
    Err(DeviceWriteError { message: message.to_string() })
}

#[test]
fn error_keeps_its_message() {
    let err = ControlValueError::new("device busy".to_string());
    assert_eq!(err.message, "device busy");
    assert_eq!(err.to_string(), "device busy");
    assert_eq!(err.clone(), err);
}

#[test]
fn every_declared_type_has_its_category() {
    assert_eq!(ControlType::Boolean.category(), ControlCategory::Switch);
    assert_eq!(ControlType::Button.category(), ControlCategory::Action);
    assert_eq!(ControlType::CtrlClass.category(), ControlCategory::Boundary);
    assert_eq!(ControlType::Integer.category(), ControlCategory::Range);
    assert_eq!(ControlType::Integer64.category(), ControlCategory::Range);
    assert_eq!(ControlType::U8.category(), ControlCategory::Range);
    assert_eq!(ControlType::U16.category(), ControlCategory::Range);
    assert_eq!(ControlType::U32.category(), ControlCategory::Range);
    assert_eq!(ControlType::Menu.category(), ControlCategory::Choice);
    assert_eq!(ControlType::IntegerMenu.category(), ControlCategory::Choice);
    assert_eq!(ControlType::Area.category(), ControlCategory::Unsupported);
    assert_eq!(ControlType::Bitmask.category(), ControlCategory::Unsupported);
    assert_eq!(ControlType::Text.category(), ControlCategory::Unsupported);
}

#[test]
fn categories_that_are_bound_and_valued() {
    assert!(ControlCategory::Switch.is_bindable());
    assert!(ControlCategory::Range.is_bindable());
    assert!(ControlCategory::Choice.is_bindable());
    assert!(ControlCategory::Action.is_bindable());
    assert!(!ControlCategory::Boundary.is_bindable());
    assert!(!ControlCategory::Unsupported.is_bindable());
    assert!(ControlCategory::Switch.has_value());
    assert!(ControlCategory::Range.has_value());
    assert!(ControlCategory::Choice.has_value());
    assert!(!ControlCategory::Action.has_value());
    assert!(!ControlCategory::Boundary.has_value());
    assert!(!ControlCategory::Unsupported.has_value());
}

#[test]
fn flags_are_told_apart_by_their_bits() {
    let none = ControlFlags::from_bits(0);
    assert!(!none.is_disabled());
    assert!(none.is_interactive());

    let disabled = ControlFlags::from_bits(FLAG_DISABLED);
    assert!(disabled.is_disabled());
    assert!(disabled.contains(FLAG_DISABLED));
    assert!(!disabled.contains(FLAG_READ_ONLY));
    assert!(disabled.is_interactive());

    assert!(!ControlFlags::from_bits(FLAG_READ_ONLY).is_interactive());
    assert!(!ControlFlags::from_bits(FLAG_INACTIVE).is_interactive());
    assert!(!ControlFlags::from_bits(FLAG_READ_ONLY | FLAG_INACTIVE).is_interactive());
    assert!(ControlFlags::from_bits(FLAG_WRITE_ONLY).is_interactive());
    assert!(!ControlFlags::from_bits(FLAG_WRITE_ONLY | FLAG_INACTIVE).is_interactive());

    let both = ControlFlags::from_bits(FLAG_DISABLED | FLAG_INACTIVE);
    assert!(both.contains(FLAG_DISABLED | FLAG_INACTIVE));
    assert!(!ControlFlags::from_bits(FLAG_DISABLED).contains(FLAG_DISABLED | FLAG_INACTIVE));
    assert_eq!(both.bits, 0x0011);
}

#[test]
fn descriptor_tells_what_becomes_of_it() {
    let switch = descriptor(1, ControlType::Boolean, "Auto");
    assert!(switch.is_bound());
    assert!(switch.needs_value());
    assert!(!switch.is_boundary());
    assert!(switch.is_consistent());

    let button = descriptor(2, ControlType::Button, "Focus");
    assert!(button.is_bound());
    assert!(!button.needs_value());

    let class = descriptor(3, ControlType::CtrlClass, "Image");
    assert!(class.is_boundary());
    assert!(!class.is_bound());
    assert!(!class.needs_value());

    let area = descriptor(4, ControlType::Area, "Region");
    assert!(!area.is_bound());
    assert!(!area.is_boundary());

    let mut off = descriptor(5, ControlType::Boolean, "Off");
    off.flags = ControlFlags::from_bits(FLAG_DISABLED);
    assert!(!off.is_bound());
    assert!(!off.needs_value());

    let mut off_class = descriptor(6, ControlType::CtrlClass, "Hidden");
    off_class.flags = ControlFlags::from_bits(FLAG_DISABLED);
    assert!(!off_class.is_boundary());

    let menu_without_entries = descriptor(7, ControlType::Menu, "Mode");
    assert!(!menu_without_entries.is_consistent());
    assert!(menu_descriptor(7, "Mode", &[]).is_consistent());
}

#[test]
fn item_data_default_and_copy() {
    let item = ItemData::default();
    assert_eq!(item.id, 0);
    assert_eq!(item.label, "");
    let named = ItemData { id: 7, label: "Seven".to_string() };
    assert_eq!(named.clone(), named);
    let items = vec![named, ItemData { id: 9, label: "Nine".to_string() }];
    assert_eq!(clone_items(&items), items);
    assert_eq!(clone_items(&Vec::new()), Vec::<ItemData>::new());
}

#[test]
fn switch_shows_what_was_read() {
    let d = descriptor(1, ControlType::Boolean, "Auto");
    let on = BooleanControl::new(&d, &Ok(RawValue::Boolean(true)));
    assert_eq!(on.id(), 1);
    assert_eq!(on.title(), "Auto");
    assert!(on.is_active());
    assert!(on.is_sensitive());
    let off = BooleanControl::new(&d, &Ok(RawValue::Boolean(false)));
    assert!(!off.is_active());
}

#[test]
fn switch_falls_back_to_off() {
    let d = descriptor(1, ControlType::Boolean, "Auto");
    assert!(!BooleanControl::new(&d, &failed_read("busy")).is_active());
    assert!(!BooleanControl::new(&d, &Ok(RawValue::Integer(1))).is_active());
    assert!(!BooleanControl::query_state(&d, &failed_read("busy")));
    assert!(BooleanControl::query_state(&d, &Ok(RawValue::Boolean(true))));
}

#[test]
fn switch_query_names_the_reason() {
    let d = descriptor(1, ControlType::Boolean, "Auto");
    assert_eq!(BooleanControl::query_control_boolean(&d, &Ok(RawValue::Boolean(true))), Ok(true));
    assert_eq!(BooleanControl::query_control_boolean(&d, &Ok(RawValue::Boolean(false))), Ok(false));
    assert_eq!(
        BooleanControl::query_control_boolean(&d, &Ok(RawValue::Integer(3))),
        Err(ControlValueError::new("Value of Auto is not a boolean".to_string()))
    );
    assert_eq!(
        BooleanControl::query_control_boolean(&d, &failed_read("device busy")),
        Err(ControlValueError::new("device busy".to_string()))
    );
}

#[test]
fn switch_enablement_follows_the_flags() {
    let mut d = descriptor(1, ControlType::Boolean, "Auto");
    d.flags = ControlFlags::from_bits(FLAG_READ_ONLY);
    let mut c = BooleanControl::new(&d, &Ok(RawValue::Boolean(true)));
    assert!(!c.is_sensitive());
    d.flags = ControlFlags::from_bits(0);
    c.update_state(&d);
    assert!(c.is_sensitive());
    assert!(c.is_active());
    d.flags = ControlFlags::from_bits(FLAG_INACTIVE);
    c.update_state(&d);
    assert!(!c.is_sensitive());
    assert!(c.is_active());
}

#[test]
fn switch_update_value_touches_the_value_only() {
    let mut d = descriptor(1, ControlType::Boolean, "Auto");
    let mut c = BooleanControl::new(&d, &Ok(RawValue::Boolean(true)));
    d.flags = ControlFlags::from_bits(FLAG_INACTIVE);
    d.name = "Renamed".to_string();
    c.update_value(&d, &Ok(RawValue::Boolean(false)));
    assert!(!c.is_active());
    assert!(c.is_sensitive());
    assert_eq!(c.title(), "Auto");
    c.update_value(&d, &failed_read("gone"));
    assert!(!c.is_active());
}

#[test]
fn switch_write_is_confirmed_before_it_shows() {
    let d = descriptor(1, ControlType::Boolean, "Auto");
    let mut c = BooleanControl::new(&d, &Ok(RawValue::Boolean(false)));
    assert_eq!(c.write_request(true), Some(ControlWrite { id: 1, value: RawValue::Boolean(true) }));
    assert!(!c.is_active());

    assert!(!c.apply(true, &failed_write("rejected")));
    assert!(!c.is_active());

    assert!(c.apply(true, &Ok(())));
    assert!(c.is_active());
}

#[test]
fn switch_that_is_not_interactive_writes_nothing() {
    let mut d = descriptor(1, ControlType::Boolean, "Auto");
    d.flags = ControlFlags::from_bits(FLAG_READ_ONLY);
    let mut c = BooleanControl::new(&d, &Ok(RawValue::Boolean(false)));
    assert_eq!(c.write_request(true), None);
    assert!(!c.apply(true, &Ok(())));
    assert!(!c.is_active());
}

#[test]
fn switch_has_no_default() {
    let d = descriptor(1, ControlType::Boolean, "Auto");
    let mut c = BooleanControl::new(&d, &Ok(RawValue::Boolean(true)));
    c.reset_default();
    assert!(c.is_active());
    assert!(c.is_sensitive());
}

#[test]
fn range_takes_bounds_and_value() {
    let mut d = descriptor(2, ControlType::Integer, "Brightness");
    d.minimum = -10;
    d.maximum = 90;
    d.step = 5;
    d.default = 40;
    let c = IntegerControl::new(&d, &Ok(RawValue::Integer(75)));
    assert_eq!(c.id(), 2);
    assert_eq!(c.title(), "Brightness");
    assert_eq!(c.lower(), -10);
    assert_eq!(c.upper(), 90);
    assert_eq!(c.step(), 5);
    assert_eq!(c.default_value(), 40);
    assert_eq!(c.value(), 75);
    assert!(c.is_sensitive());
}

#[test]
fn range_falls_back_to_the_default() {
    let d = descriptor(2, ControlType::Integer, "Brightness");
    assert_eq!(IntegerControl::new(&d, &failed_read("busy")).value(), 50);
    assert_eq!(IntegerControl::new(&d, &Ok(RawValue::Boolean(true))).value(), 50);
    assert_eq!(IntegerControl::query_state(&d, &failed_read("busy")), 50);
    assert_eq!(IntegerControl::query_state(&d, &Ok(RawValue::Integer(-3))), -3);
}

#[test]
fn range_query_names_the_reason() {
    let d = descriptor(2, ControlType::Integer, "Brightness");
    assert_eq!(IntegerControl::query_control_integer(&d, &Ok(RawValue::Integer(12))), Ok(12));
    assert_eq!(
        IntegerControl::query_control_integer(&d, &Ok(RawValue::Boolean(true))),
        Err(ControlValueError::new("Value of Brightness is not an integer".to_string()))
    );
    assert_eq!(
        IntegerControl::query_control_integer(&d, &failed_read("no such device")),
        Err(ControlValueError::new("no such device".to_string()))
    );
    assert_eq!(MenuControl::query_control_integer(&d, &Ok(RawValue::Integer(12))), Ok(12));
    assert_eq!(
        MenuControl::query_control_integer(&d, &Ok(RawValue::Boolean(false))),
        Err(ControlValueError::new("Value of Brightness is not an integer".to_string()))
    );
    assert_eq!(MenuControl::query_state(&d, &failed_read("busy")), 50);
}

#[test]
fn range_reset_yields_the_default_whatever_the_value() {
    let d = descriptor(2, ControlType::Integer, "Brightness");
    for start in [i64::MIN, -1, 0, 49, 50, 51, 100, 1000, i64::MAX] {
        let mut c = IntegerControl::new(&d, &Ok(RawValue::Integer(start)));
        assert_eq!(c.value(), start);
        c.reset_default();
        assert_eq!(c.value(), 50);
        assert!(c.lower() <= c.default_value() && c.default_value() <= c.upper());
        c.reset_default();
        assert_eq!(c.value(), 50);
    }
}

#[test]
fn range_edit_asks_for_no_refresh() {
    let d = descriptor(2, ControlType::Integer, "Brightness");
    let mut c = IntegerControl::new(&d, &Ok(RawValue::Integer(10)));
    assert_eq!(c.write_request(60), Some(ControlWrite { id: 2, value: RawValue::Integer(60) }));
    assert_eq!(c.value(), 10);
    assert!(!c.apply(60, &Ok(())));
    assert_eq!(c.value(), 60);
    assert!(!c.apply(70, &failed_write("rejected")));
    assert_eq!(c.value(), 60);
}

#[test]
fn range_that_is_not_interactive_writes_nothing() {
    let mut d = descriptor(2, ControlType::Integer, "Brightness");
    d.flags = ControlFlags::from_bits(FLAG_INACTIVE);
    let mut c = IntegerControl::new(&d, &Ok(RawValue::Integer(10)));
    assert_eq!(c.write_request(60), None);
    assert!(!c.apply(60, &Ok(())));
    assert_eq!(c.value(), 10);
}

#[test]
fn range_update_value_follows_the_device() {
    let d = descriptor(2, ControlType::Integer, "Brightness");
    let mut c = IntegerControl::new(&d, &Ok(RawValue::Integer(10)));
    c.update_value(&d, &Ok(RawValue::Integer(10)));
    assert_eq!(c.value(), 10);
    c.update_value(&d, &Ok(RawValue::Integer(33)));
    assert_eq!(c.value(), 33);
    c.update_value(&d, &failed_read("busy"));
    assert_eq!(c.value(), 50);
}

#[test]
fn choice_selects_the_entry_that_was_read() {
    let d = menu_descriptor(3, "Mode", &[(0, "Manual"), (1, "Auto"), (3, "Shutter")]);
    let c = MenuControl::new(&d, &Ok(RawValue::Integer(3)));
    assert_eq!(c.id(), 3);
    assert_eq!(c.title(), "Mode");
    assert_eq!(c.selected(), 2);
    assert_eq!(c.entries().len(), 3);
    assert_eq!(c.entries()[1], ItemData { id: 1, label: "Auto".to_string() });
    assert_eq!(MenuControl::new(&d, &Ok(RawValue::Integer(0))).selected(), 0);
    assert_eq!(MenuControl::new(&d, &Ok(RawValue::Integer(1))).selected(), 1);
}

// A device value that matches no entry is no error: the first entry is
// selected. This is the policy as it stands, whether or not it was meant.
#[test]
fn choice_without_a_match_selects_the_first_entry() {
    let d = menu_descriptor(3, "Mode", &[(5, "Five"), (6, "Six")]);
    assert_eq!(MenuControl::new(&d, &Ok(RawValue::Integer(2))).selected(), 0);
    assert_eq!(MenuControl::new(&d, &Ok(RawValue::Integer(-1))).selected(), 0);
    assert_eq!(MenuControl::new(&d, &Ok(RawValue::Integer(i64::MAX))).selected(), 0);
    let mut c = MenuControl::new(&d, &Ok(RawValue::Integer(6)));
    assert_eq!(c.selected(), 1);
    c.update_value(&d, &Ok(RawValue::Integer(7)));
    assert_eq!(c.selected(), 0);
    let empty = menu_descriptor(3, "Mode", &[]);
    assert_eq!(MenuControl::new(&empty, &Ok(RawValue::Integer(6))).selected(), 0);
    assert_eq!(MenuControl::selected_position(&Vec::new(), 0), 0);
}

#[test]
fn choice_falls_back_to_the_default_value() {
    let mut d = menu_descriptor(3, "Mode", &[(0, "Manual"), (1, "Auto"), (3, "Shutter")]);
    d.default = 1;
    assert_eq!(MenuControl::new(&d, &failed_read("busy")).selected(), 1);
    assert_eq!(MenuControl::new(&d, &Ok(RawValue::Boolean(true))).selected(), 1);
}

#[test]
fn choice_takes_the_first_of_equal_entries() {
    let entries = vec![
        ItemData { id: 4, label: "a".to_string() },
        ItemData { id: 8, label: "b".to_string() },
        ItemData { id: 8, label: "c".to_string() },
    ];
    assert_eq!(MenuControl::selected_position(&entries, 8), 1);
    assert_eq!(MenuControl::selected_position(&entries, 4), 0);
}

// A device value is matched as a whole: one that no raw value can hold
// matches no entry, and the first entry is selected.
#[test]
fn choice_matches_the_whole_device_value() {
    let entries = vec![
        ItemData { id: 0, label: "zero".to_string() },
        ItemData { id: 1, label: "one".to_string() },
        ItemData { id: u32::MAX, label: "all".to_string() },
    ];
    assert_eq!(MenuControl::selected_position(&entries, 1), 1);
    assert_eq!(MenuControl::selected_position(&entries, 0xffff_ffff), 2);
    assert_eq!(MenuControl::selected_position(&entries, 0x1_0000_0001), 0);
    assert_eq!(MenuControl::selected_position(&entries, 0x1_0000_0000), 0);
    assert_eq!(MenuControl::selected_position(&entries, -1), 0);
    assert_eq!(MenuControl::selected_position(&entries, i64::MIN), 0);
    assert_eq!(MenuControl::selected_position(&entries, 2), 0);

    let d = menu_descriptor(3, "Mode", &[(0, "A"), (1, "B")]);
    assert_eq!(MenuControl::new(&d, &Ok(RawValue::Integer(4294967297))).selected(), 0);
    let mut c = MenuControl::new(&d, &Ok(RawValue::Integer(1)));
    assert_eq!(c.selected(), 1);
    c.update_value(&d, &Ok(RawValue::Integer(4294967297)));
    assert_eq!(c.selected(), 0);

    let mut beyond = menu_descriptor(3, "Mode", &[(0, "A"), (1, "B")]);
    beyond.default = 4294967297;
    assert_eq!(MenuControl::new(&beyond, &failed_read("busy")).selected(), 0);

    let last = menu_descriptor(3, "Mode", &[(0, "A"), (4294967295, "B")]);
    assert_eq!(MenuControl::new(&last, &Ok(RawValue::Integer(-1))).selected(), 0);
    assert_eq!(MenuControl::new(&last, &Ok(RawValue::Integer(4294967295))).selected(), 1);
}

#[test]
fn choice_writes_the_raw_value_of_the_entry() {
    let d = menu_descriptor(3, "Mode", &[(0, "Manual"), (1, "Auto"), (3, "Shutter")]);
    let mut c = MenuControl::new(&d, &Ok(RawValue::Integer(0)));
    assert_eq!(c.write_request(2), Some(ControlWrite { id: 3, value: RawValue::Integer(3) }));
    assert_eq!(c.write_request(3), None);
    assert_eq!(c.selected(), 0);

    assert!(!c.apply(2, &failed_write("rejected")));
    assert_eq!(c.selected(), 0);
    assert!(c.apply(2, &Ok(())));
    assert_eq!(c.selected(), 2);
    assert!(!c.apply(3, &Ok(())));
    assert_eq!(c.selected(), 2);
}

#[test]
fn choice_writes_large_raw_values_unchanged() {
    let d = menu_descriptor(3, "Mode", &[(u32::MAX, "Last")]);
    let c = MenuControl::new(&d, &Ok(RawValue::Integer(0)));
    assert_eq!(c.write_request(0), Some(ControlWrite { id: 3, value: RawValue::Integer(4294967295) }));
}

#[test]
fn choice_that_is_not_interactive_writes_nothing() {
    let mut d = menu_descriptor(3, "Mode", &[(0, "Manual"), (1, "Auto")]);
    d.flags = ControlFlags::from_bits(FLAG_READ_ONLY | FLAG_INACTIVE);
    let mut c = MenuControl::new(&d, &Ok(RawValue::Integer(0)));
    assert!(!c.is_sensitive());
    assert_eq!(c.write_request(1), None);
    assert!(!c.apply(1, &Ok(())));
    assert_eq!(c.selected(), 0);
    c.reset_default();
    assert_eq!(c.selected(), 0);
}

#[test]
fn choice_rematches_against_the_new_entries() {
    let d = menu_descriptor(3, "Mode", &[(0, "Manual"), (1, "Auto"), (3, "Shutter")]);
    let mut c = MenuControl::new(&d, &Ok(RawValue::Integer(3)));
    assert_eq!(c.selected(), 2);
    let fresh = menu_descriptor(3, "Mode", &[(3, "Shutter"), (0, "Manual")]);
    c.update_value(&fresh, &Ok(RawValue::Integer(0)));
    assert_eq!(c.selected(), 1);
    assert_eq!(c.entries().len(), 3);
}

#[test]
fn action_writes_the_sentinel() {
    let d = descriptor(4, ControlType::Button, "Focus now");
    let mut c = ButtonControl::new(&d);
    assert_eq!(c.id(), 4);
    assert_eq!(c.label(), "Focus now");
    assert!(c.is_sensitive());
    assert_eq!(c.write_request(), Some(ControlWrite { id: 4, value: RawValue::Integer(0) }));
    assert!(c.apply(&Ok(())));
    assert!(!c.apply(&failed_write("rejected")));
    c.update_value(&d, &Ok(RawValue::Integer(9)));
    c.reset_default();
    assert!(c.is_sensitive());
    assert_eq!(c.label(), "Focus now");
}

#[test]
fn action_that_is_not_interactive_writes_nothing() {
    let mut d = descriptor(4, ControlType::Button, "Focus now");
    d.flags = ControlFlags::from_bits(FLAG_INACTIVE);
    let mut c = ButtonControl::new(&d);
    assert_eq!(c.write_request(), None);
    assert!(!c.apply(&Ok(())));
    d.flags = ControlFlags::from_bits(0);
    c.update_state(&d);
    assert_eq!(c.write_request(), Some(ControlWrite { id: 4, value: RawValue::Integer(0) }));
}

#[test]
fn factory_makes_the_variant_of_the_type() {
    let read: ReadResult = Ok(RawValue::Integer(1));
    let switch = ControlBinding::create(&descriptor(1, ControlType::Boolean, "a"), &read).unwrap();
    assert!(matches!(switch, ControlBinding::Switch(_)));
    for typ in [
        ControlType::Integer,
        ControlType::Integer64,
        ControlType::U8,
        ControlType::U16,
        ControlType::U32,
    ] {
        let range = ControlBinding::create(&descriptor(2, typ, "b"), &read).unwrap();
        assert!(matches!(range, ControlBinding::Range(_)));
        assert_eq!(range.id(), 2);
        assert!(range.has_value());
    }
    let mut menu = menu_descriptor(3, "c", &[(1, "one")]);
    assert!(matches!(ControlBinding::create(&menu, &read).unwrap(), ControlBinding::Choice(_)));
    menu.typ = ControlType::IntegerMenu;
    assert!(matches!(ControlBinding::create(&menu, &read).unwrap(), ControlBinding::Choice(_)));
    let action = ControlBinding::create(&descriptor(4, ControlType::Button, "d"), &read).unwrap();
    assert!(matches!(action, ControlBinding::Action(_)));
    assert!(!action.has_value());
}

#[test]
fn factory_passes_over_unsupported_types() {
    let read: ReadResult = Ok(RawValue::Integer(1));
    for typ in [ControlType::Area, ControlType::Bitmask, ControlType::Text, ControlType::CtrlClass] {
        let dropped = ControlBinding::create(&descriptor(9, typ, "x"), &read);
        assert_eq!(dropped.err(), Some(UnsupportedControlCategory { id: 9, typ }));
    }
}

#[test]
fn binding_takes_only_its_own_kind_of_edit() {
    let read: ReadResult = Ok(RawValue::Integer(1));
    let mut range = ControlBinding::create(&descriptor(2, ControlType::Integer, "b"), &read).unwrap();
    assert_eq!(range.write_request(UserEdit::Switch(true)), None);
    assert_eq!(range.write_request(UserEdit::Choice(0)), None);
    assert_eq!(range.write_request(UserEdit::Action), None);
    assert_eq!(
        range.write_request(UserEdit::Range(5)),
        Some(ControlWrite { id: 2, value: RawValue::Integer(5) })
    );
    assert!(!range.apply(UserEdit::Switch(true), &Ok(())));
    assert!(!range.apply(UserEdit::Range(5), &Ok(())));
    match &range {
        ControlBinding::Range(c) => assert_eq!(c.value(), 5),
        _ => unreachable!(),
    }

    let mut action = ControlBinding::create(&descriptor(4, ControlType::Button, "d"), &read).unwrap();
    assert_eq!(action.write_request(UserEdit::Range(5)), None);
    assert!(!action.apply(UserEdit::Range(5), &Ok(())));
    assert!(action.apply(UserEdit::Action, &Ok(())));
}

#[test]
fn binding_dispatch_reaches_each_variant() {
    let read: ReadResult = Ok(RawValue::Boolean(true));
    let mut d = descriptor(1, ControlType::Boolean, "a");
    let mut switch = ControlBinding::create(&d, &read).unwrap();
    assert!(switch.is_sensitive());
    d.flags = ControlFlags::from_bits(FLAG_INACTIVE);
    switch.update_state(&d);
    assert!(!switch.is_sensitive());
    switch.update_value(&d, &Ok(RawValue::Boolean(false)));
    match &switch {
        ControlBinding::Switch(c) => assert!(!c.is_active()),
        _ => unreachable!(),
    }
    switch.reset_default();
    match &switch {
        ControlBinding::Switch(c) => assert!(!c.is_active()),
        _ => unreachable!(),
    }
    assert!(switch.accepts(&d));

    let menu = menu_descriptor(3, "c", &[(1, "one"), (2, "two")]);
    let mut choice = ControlBinding::create(&menu, &Ok(RawValue::Integer(2))).unwrap();
    assert!(choice.accepts(&menu));
    assert!(!choice.accepts(&descriptor(3, ControlType::Menu, "c")));
    assert!(choice.apply(UserEdit::Choice(0), &Ok(())));
    match &choice {
        ControlBinding::Choice(c) => assert_eq!(c.selected(), 0),
        _ => unreachable!(),
    }
}

#[test]
fn updating_twice_changes_nothing_the_second_time() {
    let mut d = descriptor(2, ControlType::Integer, "Brightness");
    let mut c = IntegerControl::new(&d, &Ok(RawValue::Integer(10)));
    d.flags = ControlFlags::from_bits(FLAG_READ_ONLY);
    c.update_state(&d);
    let once = (c.value(), c.is_sensitive());
    c.update_state(&d);
    assert_eq!((c.value(), c.is_sensitive()), once);
    assert!(!c.is_sensitive());

    c.update_value(&d, &Ok(RawValue::Integer(77)));
    let once = (c.value(), c.is_sensitive());
    c.update_value(&d, &Ok(RawValue::Integer(77)));
    assert_eq!((c.value(), c.is_sensitive()), once);
    assert_eq!(c.value(), 77);

    let menu = menu_descriptor(3, "Mode", &[(0, "Manual"), (1, "Auto")]);
    let mut m = MenuControl::new(&menu, &Ok(RawValue::Integer(0)));
    m.update_value(&menu, &Ok(RawValue::Integer(1)));
    assert_eq!(m.selected(), 1);
    m.update_value(&menu, &Ok(RawValue::Integer(1)));
    assert_eq!(m.selected(), 1);

    let sw = descriptor(1, ControlType::Boolean, "Auto");
    let mut s = BooleanControl::new(&sw, &Ok(RawValue::Boolean(false)));
    s.update_value(&sw, &Ok(RawValue::Boolean(true)));
    s.update_value(&sw, &Ok(RawValue::Boolean(true)));
    assert!(s.is_active());
}

fn refresh_through_the_common_surface<C: ControlUi>(control: &mut C, description: &ControlDescriptor) {
    control.update_state(description);
    control.update_value(description, &Ok(RawValue::Integer(1)));
    control.reset_default();
}

#[test]
fn every_binding_offers_the_common_surface() {
    let mut d = descriptor(2, ControlType::Integer, "Brightness");
    d.flags = ControlFlags::from_bits(FLAG_INACTIVE);
    let plain = descriptor(2, ControlType::Integer, "Brightness");

    let mut range = IntegerControl::new(&plain, &Ok(RawValue::Integer(7)));
    refresh_through_the_common_surface(&mut range, &d);
    assert_eq!(range.value(), 50);
    assert!(!range.is_sensitive());

    let mut switch = BooleanControl::new(&plain, &Ok(RawValue::Boolean(true)));
    refresh_through_the_common_surface(&mut switch, &d);
    assert!(!switch.is_active());
    assert!(!switch.is_sensitive());

    let menu = menu_descriptor(2, "Mode", &[(0, "zero"), (1, "one")]);
    let mut choice = MenuControl::new(&menu, &Ok(RawValue::Integer(0)));
    refresh_through_the_common_surface(&mut choice, &menu);
    assert_eq!(choice.selected(), 1);
    assert!(choice.is_sensitive());

    let mut action = ButtonControl::new(&plain);
    refresh_through_the_common_surface(&mut action, &d);
    assert!(!action.is_sensitive());

    let mut binding = ControlBinding::create(&plain, &Ok(RawValue::Integer(7))).unwrap();
    refresh_through_the_common_surface(&mut binding, &d);
    assert!(!binding.is_sensitive());
    match &binding {
        ControlBinding::Range(c) => assert_eq!(c.value(), 50),
        _ => unreachable!(),
    }
}
