pub mod handle_mangadex;
pub mod json_structs;
