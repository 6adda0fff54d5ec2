//! Client library for out-of-band interaction servers: session identities,
//! the register / poll / deregister protocol state machine, and the
//! decryption pipeline that turns poll results into interaction logs.

pub mod correlation;
pub mod crypto_error;
pub mod encoding;
pub mod aes_cfb;
pub mod pkey;
pub mod text;
pub mod ip_address;
pub mod interaction_log;
pub mod server_comm;
pub mod log_decrypt;
pub mod log_stream;
pub mod builder;
