pub mod handle_input;
pub mod handle_library;
pub mod handle_scraping;
pub mod mangadex;
pub mod mangapill;
pub mod utils;
pub mod weebcentral;
pub mod write_user_path;
