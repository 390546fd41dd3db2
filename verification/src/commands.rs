pub mod devices;
pub mod engine;
pub mod external_routes;
