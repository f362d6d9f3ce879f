pub mod boolean_control;
pub mod button_control;
pub mod control_ui;
pub mod control_value_error;
pub mod integer_control;
pub mod menu_control;

pub use self::boolean_control::BooleanControl;
pub use self::button_control::ButtonControl;
pub use self::control_ui::{ControlBinding, ControlUi, UnsupportedControlCategory, UserEdit};
pub use self::control_value_error::ControlValueError;
pub use self::integer_control::IntegerControl;
pub use self::menu_control::MenuControl;
