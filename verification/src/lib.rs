pub mod b64;
pub mod chats;
pub mod cipher;
pub mod crypto;
pub mod decryptor;
pub mod envelope;
pub mod errors;
pub mod hexstr;
pub mod json;
pub mod keystore;
pub mod records;
pub mod request_types;
pub mod state;
pub mod strutil;
