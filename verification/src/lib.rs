pub mod errors;
pub mod path;
pub mod scraped_data;
pub mod text;

pub use errors::ErrorVals;
pub use scraped_data::{ScrapedData, ScrapedDataView, Site};
pub mod components;
pub mod utils;
pub mod html;
pub mod cli;
