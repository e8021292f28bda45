//! A verified core for an HTTP request tool: an assembler that turns an
//! abstract request description into a transport-ready one, a content-type
//! sniffing heuristic, a normalizer that shapes a transport response into a
//! uniform result, and a standalone form codec. The transport itself and the
//! process boundary live outside this crate; the calls into the outside
//! crates that the logic needs stand behind the contracts in `trusted`.

pub mod assemble;
pub mod form;
pub mod model;
pub mod response;
pub mod sniff;
pub mod text;
pub mod trusted;
