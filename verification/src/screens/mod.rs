//! Screens, without the drawing.

pub mod chat_list;
pub mod chat_view;
pub mod contact_search;
pub mod device_link;
pub mod layout;
