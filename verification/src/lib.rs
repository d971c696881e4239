//! Core of an AI-completion gateway: the canonical request model, the
//! normalizer that lowers every accepted ingress shape into it, and the
//! adapter registry with its routing and failover policy.
//!
//! A request takes this way through the crate:
//!
//! 1. The body of a call is read into a [`json::Json`] tree
//!    ([`json_codec`]).
//! 2. The tree is recognized as one of the accepted shapes
//!    ([`protocols::shapes`]) and lowered into a
//!    [`canonical::CanonicalAIRequest`] ([`protocols::rest`]). A payload
//!    without messages is turned away here.
//! 3. The routing policy names the adapters to try ([`router`]) among those
//!    that the directory holds ([`registry`]).
//! 4. The request is put into the adapters' schema ([`proto`]), its wire form
//!    ([`wire`]) is the line for the replay log, and the failover runs over
//!    the candidates ([`dispatch`], [`forward`]).
//!
//! Nothing in this crate reads a socket, writes a file or calls an adapter:
//! it decides, and whoever embeds it acts. Every function is verified against
//! its contract, which is stated over the mathematical model (`@`) of the
//! values involved. The exceptions are the few private functions that call
//! `serde_json` and `uuid`: their contracts are taken on trust, and their
//! documentation says what each claims. What holds across functions is
//! proved in the `lemma_` functions next to them and in [`wire_laws`].

pub mod bus;
pub mod canonical;
pub mod config;
pub mod decode;
pub mod digital_twin;
pub mod dispatch;
pub mod forward;
pub mod json;
pub mod json_codec;
pub mod metadata;
pub mod middleware;
pub mod proto;
pub mod protocols;
pub mod registry;
pub mod request_id;
pub mod router;
pub mod text;
pub mod wire;
pub mod wire_laws;
