//! Verified core of the Mobailmux agent web service.
pub mod text;
pub mod num;
pub mod split;
pub mod html;
pub mod harness;
pub mod shared;
pub mod json;
pub mod composer;
pub mod types;
pub mod control;
pub mod runtime;
pub mod terminal;
pub mod time;
pub mod crypto;
pub mod views;
pub mod auth;
pub mod codex;
pub mod slots;
pub mod commands;
pub mod jobs;
pub mod api;
pub mod web;
pub mod usage;
pub mod page;
pub mod config;
pub mod dashboard;
pub mod cli;
pub mod listing;
