pub mod bridge;
pub mod dispatcher;
pub mod injector;
pub mod registry;
pub mod resolver;
pub mod window;
