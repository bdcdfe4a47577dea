//! The decisions of a menu-bar card that shows a Kimi subscription's quota.
#![allow(unused_imports)]

pub mod account;
pub mod cli;
pub mod codec;
pub mod device;
pub mod error;
pub mod http;
pub mod json;
pub mod jwt;
pub mod keychain;
pub mod login;
pub mod oscrypt;
pub mod paths;
pub mod qr;
pub mod qrcheck;
pub mod quota;
pub mod rpc;
pub mod store;
pub mod stored;
pub mod text;
pub mod token;
pub mod weblogin;
pub mod window;
