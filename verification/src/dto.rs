pub mod bot_info_dto;
