//! Starail: the logic of a small terminal client that manages a local
//! mihomo core, its profiles, subscriptions, proxy groups and shell proxy
//! settings.
pub mod text;
pub mod lines;
pub mod number;
pub mod i18n;
pub mod cli;
pub mod config;
pub mod paths;
pub mod util;
pub mod system_proxy;
pub mod order;
pub mod profile;
pub mod json;
pub mod yaml;
pub mod status;
pub mod controller;
pub mod proxy;
pub mod base64;
pub mod width;
pub mod subscription;
pub mod runtime;
pub mod mihomo_core;
pub mod tui;
pub mod platform;
