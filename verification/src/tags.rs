//! The typed tag builders and the toast operations that add them.

pub mod action;
pub mod audio;
pub mod binding;
pub mod commands;
pub mod header;
pub mod image;
pub mod input;
pub mod progress;
pub mod sub_group;
pub mod text;
pub mod toast;
pub mod visual;
