//! Client-side core of a central-limit-order-book exchange integration:
//! decimal rounding of orders, request authentication and the decisions of a
//! self-healing event stream.

pub mod decimal;
pub mod error;
pub mod rounding;
pub mod orders;
pub mod signing;
pub mod stream;
pub mod websocket;
pub mod client;
