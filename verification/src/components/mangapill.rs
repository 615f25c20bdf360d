pub mod handle_mangapill;
