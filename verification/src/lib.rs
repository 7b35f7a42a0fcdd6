pub mod captures;
pub mod database;
pub mod dto;
pub mod ge_api;
pub mod helpers;
pub mod jobs;
pub mod osrs_broadcast_extractor;
pub mod osrs_broadcast_handler;
pub mod redis_helpers;
pub mod text;
pub mod wiki_api;
pub mod wom;
