//! The front doors of the gateway: what they accept and what they answer.

pub mod graphql;
pub mod http;
pub mod rest;
pub mod rest_call;
pub mod shapes;
