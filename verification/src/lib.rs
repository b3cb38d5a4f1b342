//! Decision logic of a group-chat moderation assistant: which user a command
//! targets, whether the caller and the bot may act, and what each command
//! does to the chat.

pub mod entities;
pub mod text;
pub mod args;
pub mod message;
pub mod resolver;
pub mod perms;
pub mod actions;
pub mod banning;
pub mod muting;
pub mod admin;
pub mod html;
pub mod filters;
pub mod misc;
pub mod commands;
