//! The core of `tdi`, a command-line client for Microsoft To Do.
//!
//! The tool logs in with the OAuth 2.0 authorization-code flow: it sends the
//! browser to the provider, takes the code that the provider redirects to a
//! local listener, trades it for tokens, and keeps them in a credential file
//! until they are refreshed or the user logs out. With the access token it
//! reads the profile, the lists and the tasks from the Graph API.
//!
//! This library holds what the tool decides and computes, with contracts
//! that Verus proves. Opening browsers, serving and sending HTTP and
//! touching files are left to the program around it.
//!
//! - [`auth`]: the authorization request and its URL, the token requests,
//!   the reading of the provider's answer, and the failures.
//! - [`callback`]: the receiver of the redirect.
//! - [`login`]: the steps of a login, in their order.
//! - [`store`]: the token store behind the credential file.
//! - [`form`]: the form-urlencoded syntax of query strings and form bodies.
//! - [`json`]: JSON through `serde_json`.
//! - [`user`], [`lists`], [`tasksv2`], [`tasks`]: what the commands show.
//! - [`cli`]: the commands as data.
//! - [`text`]: string tools.

pub mod auth;
pub mod callback;
pub mod cli;
pub mod form;
pub mod json;
pub mod lists;
pub mod login;
pub mod store;
pub mod tasks;
pub mod tasksv2;
pub mod text;
pub mod user;
