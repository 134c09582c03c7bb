//! State and input handling of a terminal HTTP client: a navigable tree of
//! saved requests, a strip of open tabs, an editable URL field, a method
//! picker, focus routing between screen regions, and request building.
pub mod focus;
pub mod tree;
pub mod tabs;
pub mod text_field;
pub mod select_menu;
pub mod request;
pub mod app;
