//! Decision logic of the ORACULUM Telegram bots: configuration, access
//! quotas, premium periods, tarot / astrology / Leela tables and draws,
//! inline keyboards and the routing of user and admin updates.

pub mod access;
pub mod admin;
pub mod ai;
pub mod chance;
pub mod clock;
pub mod config;
pub mod esoterics;
pub mod keyboards;
pub mod models;
pub mod prompts;
pub mod routing;
pub mod screens;
pub mod states;
pub mod text;
