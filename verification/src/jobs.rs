pub mod name_change_job;
pub mod parse_rl_chat_command;
pub mod runelite_commands;
pub mod update_create_clanmate_job;
pub mod wom_guild_sync_logic;
