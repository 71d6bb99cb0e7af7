pub mod api;
pub mod bot;
pub mod error;
pub mod event;
pub mod event_laws;
pub mod funs;
pub mod json;
pub mod message;
pub mod modules;
pub mod protocol;
pub mod request;
pub mod text;
