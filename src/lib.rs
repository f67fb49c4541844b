//! The command/response engine of a bench multimeter that speaks SCPI over a
//! serial line: the outbound command queue with at most one query awaiting its
//! reply, line framing of replies, reading of identity, measurement and
//! function replies (with the firmware quirk that reverses diode and
//! continuity), periodic function checks, and the orderly connect and
//! disconnect handshakes. The engine owns no transport; its caller performs the
//! reads and writes it asks for.

pub mod engine;
pub mod multimeter;
pub mod operator;
pub mod session;
pub mod settings;
pub mod text;
