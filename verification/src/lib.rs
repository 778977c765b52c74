//! The dispatch and window-lifecycle core of a runtime that lets a host application framework
//! drive windows which an engine of its own renders.
//!
//! The host expects one thread to own the event loop and every window, while commands may come
//! from any thread. This crate holds the rules of that arrangement: where a command runs
//! ([`runtime::RuntimeContext::send_message`]), which windows live
//! ([`runtime::RuntimeContext::create_window`],
//! [`runtime::RuntimeContext::handle_close_window_request`]), what the event loop does about
//! each event ([`runtime::VersoRuntime::handle_event`]), and how a resource request is made
//! ready for the handler of a custom protocol ([`request::on_web_resource_requested`]).
//!
//! Nothing here touches a channel, an engine or the screen. Whatever has to happen outside
//! comes back from a call as a value that says what to do.

pub mod config;
pub mod dispatch;
pub mod engine;
pub mod error;
pub mod ids;
pub mod message;
pub mod request;
pub mod runtime;
pub mod text;
pub mod uri;
pub mod webview;
pub mod window;

pub use config::{
    get_verso_devtools_port, get_verso_path, get_verso_resource_directory,
    set_verso_devtools_port, set_verso_path, set_verso_resource_directory, VersoConfig,
};
pub use error::{ConfigError, Error};
pub use message::Message;
pub use dispatch::DispatcherMainThreadContext;
pub use runtime::{RuntimeContext, VersoRuntime};
pub use uri::{is_work_around_uri, work_around_uri_prefix};
pub use webview::VersoWebviewDispatcher;
pub use window::{VersoWindowBuilder, VersoWindowDispatcher};
