//! Verified core of an Epic Seven shop and altar auto-clicker driven over adb.

pub mod adb;
pub mod altar;
pub mod cli;
pub mod display;
pub mod history;
pub mod item;
pub mod matcher;
pub mod shop;
pub mod text;
