pub mod conf;
pub mod env;
pub mod error;
pub mod escape;
pub mod executor;
pub mod local;
pub mod plan;
pub mod process;
pub mod remote;
pub mod run;
pub mod schema;
pub mod template;
pub mod text;
