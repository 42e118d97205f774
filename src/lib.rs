pub mod cell;
pub mod composite;
pub mod context;
pub mod event;
pub mod id;
pub mod modified;
pub mod modifier;
pub mod node;
pub mod overlay;
pub mod scroll_view;
pub mod stack;
pub mod text;
pub mod toggle;
pub mod view;
pub mod laws;
pub mod ext;
