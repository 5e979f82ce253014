//! The logic of a Discord server bot: sign-up tokens, motions and votes,
//! role reactions, member profiles and the texts the bot sends.
pub mod text;
pub mod tokens;
pub mod config;
pub mod discord;
pub mod voting;
pub mod react;
pub mod helpers;
pub mod roles;
pub mod directory;
pub mod members;
pub mod profile;
pub mod commands;
