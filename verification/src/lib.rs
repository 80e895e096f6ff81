//! A greeting service: one unary call that answers a name with a greeting.
//!
//! * [`message`] holds the two messages of the call and the text of a
//!   greeting, with what follows from it.
//! * [`envelope`] declares the transport's request and response types and
//!   the two calls that the handler makes on them. Nothing there is proved.
//! * [`greeter`] holds the service and its handler.
//!
//! The service keeps no state. Listening, decoding and encoding are the
//! transport's work and are not part of this library.

pub mod envelope;
pub mod greeter;
pub mod message;
