pub mod wiki_api;
