//! The windows: the explorer, and the popups that open over it.

pub mod confirmation_popup;
pub mod explorer_table;
pub mod key_mapping_popup;
pub mod sorting_popup;
pub mod text_field_popup;
