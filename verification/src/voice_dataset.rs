pub mod error;
pub mod prompts;
pub mod quality;
pub mod take;
pub mod manifest;
pub mod profile;
pub mod consent;
pub mod storage;
pub mod session;
pub mod import;
pub mod preview;
pub mod runtime;
pub mod source;
