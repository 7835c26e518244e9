//! Request-to-subprocess conversion pipeline of an HTTP vectorization service.

pub mod invoker;
pub mod job;
pub mod options;
pub mod pipeline;
pub mod response;
pub mod text;
pub mod upload;
pub mod workspace;
