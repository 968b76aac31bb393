//! A declarative HTTP-client compiler: it turns a service interface
//! description (methods tagged with verb, path, parameter bindings and
//! configuration) into route descriptors, and interprets each descriptor
//! as a concrete request plan that a transport can dispatch.

pub mod attributes;
pub mod client;
pub mod descriptor;
pub mod error;
pub mod expand;
pub mod method;
pub mod sample;
pub mod schema;
pub mod synth;
pub mod text;
pub mod token;
pub mod urls;

pub use client::HttpClient;
pub use client::HttpClientOption;
pub use client::HttpClientOptionBuilder;
pub use error::Error;
pub use error::snippet;
pub use method::Method;
pub use token::Token;
