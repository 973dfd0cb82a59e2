#![allow(non_snake_case)]
use vstd::prelude::*;

pub mod app_state;
pub mod chat_box;
pub mod chat_selector;
pub mod config;
pub mod data;
pub mod help_box;
pub mod log_box;
pub mod message;
pub mod notify;
pub mod request;
pub mod room;
pub mod sorting;
pub mod talk;
pub mod text;
pub mod time_format;
pub mod title_bar;
pub mod user_styles;
pub mod users;

verus! {
} // verus!
