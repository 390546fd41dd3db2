pub mod device;
pub mod digits;
pub mod engine_state;
pub mod external_route;
pub mod reliability;
pub mod text;
pub mod words;
pub mod stream_config;
pub mod metrics;
pub mod controller;
pub mod application_settings;
pub mod commands;
pub mod voice_dataset;
pub mod worker;
pub mod presets;
pub mod preset_copies;
pub mod random;
pub mod output_stream;
pub mod error;
pub mod product;
pub mod device_capabilities;
pub mod stream_plan;
pub mod preset_validity;
pub mod channel_mapper;
