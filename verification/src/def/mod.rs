//! The typed values of the manifest's fields.

pub mod bugs;
pub mod entry_fields;
pub mod flag_fields;
pub mod license;
pub mod list_fields;
pub mod map_fields;
pub mod module_type;
pub mod name;
pub mod package_manager;
pub mod person;
pub mod publish_config;
pub mod repository;
pub mod text_fields;
pub mod version;
