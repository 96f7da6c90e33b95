//! Media publish pipeline for a meme-sharing backend.
//!
//! The path from an incoming upload to a durably stored object plus a
//! consistent database record: size validation, byte-level format
//! sniffing, conditional transcoding, time-ordered key generation, and
//! the coordination policy that decides what happens when the object
//! store or the relational store fails mid-way.

pub mod config;
pub mod coordinator;
pub mod errors;
pub mod keygen;
pub mod models;
pub mod sniff;
pub mod transcode;
