//! Provider adapters between a provider-independent conversation model and
//! the wire formats of language-model services.
//!
//! A conversation is written once, in the model of [`message`] and
//! [`completion`], and an adapter under [`providers`] writes it in the
//! format of one provider and reads the provider's answer back. Embeddings
//! go the same way, through [`embeddings`].
//!
//! The adapters do no input or output. An exchange is a value: the adapter
//! says what to post ([`transport::HttpRequest`]), the caller sends it, and
//! the adapter says what the reply ([`transport::HttpReply`]) means. JSON is
//! held in the model of [`json`], which a caller turns into and out of text.
//!
//! Every function states what it computes in its contract, over the views of
//! its arguments, and is proved to meet it.

pub mod completion;
pub mod decode;
pub mod embeddings;
pub mod json;
pub mod message;
pub mod one_or_many;
pub mod providers;
pub mod text;
pub mod transport;
pub mod views;
