//! Generated documentation: naming helpers, binding help text and the static
//! handbook pages.
pub mod naming;
pub mod binding_text;
pub mod pages;
pub mod device_pages;
pub mod architecture_page;
pub mod output;
pub mod python_modules;
pub mod excel_modules;
pub mod summary_cards;
pub mod ordered_names;
pub mod equations_init;
pub mod binding_manifest;
pub mod binding_tables;
pub mod equation_modules;
pub mod book_index;
pub mod equation_pages;
pub mod catalog_pages;
pub mod category_pages;
pub mod catalog;
