pub mod cloud_provider;
pub mod cloud_services;
