//! Decision core of a mobile client for a reactive-query backend.
//!
//! Everything here is synchronous and free of I/O: the connection lifecycle,
//! the command flow, the subscription loop and its cancellation are state
//! machines that say which step comes next, and a thin asynchronous shell
//! performs the steps.

pub mod client;
pub mod codec;
pub mod connection;
pub mod error;
pub mod handle;
pub mod result;
pub mod subscriber;
pub mod subscription;

pub use client::MobileConvexClient;
pub use error::ClientError;
pub use handle::SubscriptionHandle;
pub use result::{handle_direct_function_result, FunctionResult};
pub use subscriber::{CallbackSubscriber, QuerySubscriber};
pub use subscription::Subscription;
