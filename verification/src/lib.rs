//! The rules of the Miru desktop client.
pub mod assets;
pub mod auth;
pub mod beatmap;
pub mod benchmark;
pub mod bytes;
pub mod cache;
pub mod codec;
pub mod config;
pub mod desktop;
pub mod error;
pub mod hud;
pub mod jobs;
pub mod json;
pub mod launch;
pub mod osu;
pub mod osudb;
pub mod paths;
pub mod plan;
pub mod releases;
pub mod render;
pub mod replay;
pub mod rules;
pub mod scan;
pub mod server;
pub mod settings;
pub mod socket;
pub mod state;
pub mod text;
pub mod tools;
pub mod transfer;
pub mod types;
pub mod watch;
pub mod weburl;
