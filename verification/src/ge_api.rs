pub mod ge_api;
