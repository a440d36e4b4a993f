//! Verified core of the Chatterbox desktop client: the `.env` reader, the
//! search for a Python interpreter, the line-delimited JSON-RPC bookkeeping
//! with the Python child process, audio payload encoding, and the chat
//! window's state machine.
pub mod text;
pub mod envfile;
pub mod python;
pub mod rpc;
pub mod audio;
pub mod chat;
pub mod invoke;
pub mod view;
pub mod layout;
