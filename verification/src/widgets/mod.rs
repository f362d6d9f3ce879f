pub mod controls_panel;

pub use self::controls_panel::ControlsPanel;
