pub mod chat;
pub mod chat_view;
pub mod input;
pub mod schema_panel;
pub mod status_bar;
pub mod table_view;
