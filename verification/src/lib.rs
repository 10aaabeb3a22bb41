use vstd::prelude::*;

pub mod assertions;
pub mod broker_qos;
pub mod broker_session;
pub mod capabilities;
pub mod client_session;
pub mod config;
pub mod declarations;
pub mod encode;
pub mod framing;
pub mod error_classification;
pub mod packet_parser;
pub mod packet_stream;
pub mod pushback;
pub mod qos;
pub mod quic_codes;
pub mod skip;
pub mod sut;
pub mod test_client;
pub mod text;
