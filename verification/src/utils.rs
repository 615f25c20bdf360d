pub mod api_helper;
pub mod chapter_dir_helpers;
pub mod image_helpers;
pub mod misc;
pub mod chapter_download;
