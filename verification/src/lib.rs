//! Dissection pipeline for packet captures of a legacy MMO
//! client-server protocol.
//!
//! A capture runs through five stages: [`pcap`] streams records out of
//! the capture container; [`transport`] strips link, IP and UDP framing
//! and parses the protocol's own header; [`assembler`] reassembles
//! fragmented application messages; [`dissector`] cuts typed messages
//! out of each payload using the schemas in [`s2c`]; and
//! [`weenie_extractor`] folds the message stream into the entity
//! database of [`weenie`]. [`parser`] drives the whole pipeline over an
//! in-memory capture.
//!
//! [`reader`] is the little-endian cursor everything decodes through,
//! [`codec`] its encoding counterpart, and [`strfmt`] builds the
//! symbolic hex and decimal names. [`discord`] validates capture-fetch
//! requests, and [`assets`] names the web bundle's files after its
//! digest.

pub mod assembler;
pub mod assets;
pub mod codec;
pub mod discord;
pub mod dissector;
pub mod parser;
pub mod pcap;
pub mod reader;
pub mod s2c;
pub mod strfmt;
pub mod transport;
pub mod weenie;
pub mod weenie_extractor;
