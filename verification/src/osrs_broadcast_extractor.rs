pub mod osrs_broadcast_extractor;
