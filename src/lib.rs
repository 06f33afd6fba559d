//! Typed command building and reply decoding for a key-value store speaking
//! a RESP-style request/response protocol.
//!
//! Commands are ordered lists of binary-safe tokens; replies are decoded into
//! native types or rejected with a structured error.

mod command;
mod command_args;
mod commands;
mod decimal;
mod from_value;
pub mod generic_commands;
mod laws;
mod server_commands;
mod to_args;
mod value;

pub use command_args::{arg_tokens, copy_bytes, CommandArgs, CommandArgsIterator, ToArgs};
pub use decimal::{
    decimal, digits_value, i64_to_decimal, parse_i64, parse_integer, parse_natural, parse_u64,
    signed_decimal, u64_to_decimal,
};
pub use to_args::{concat_args, lemma_single_matches_collection, SingleArgOrCollection};
pub use value::{Error, Value};
pub use from_value::{
    decode, decode_dump, decode_scan, decoded_as, spec_decode, spec_decode_all, spec_decode_dump,
    FromValue,
};
pub use command::{cmd, lemma_chaining_keeps_order, wire_tokens, Command};
pub use generic_commands::{Expire, GenericCommands, Restore, Scan};
pub use server_commands::{flushing_mode_args, FlushingMode, ServerCommands};
pub use commands::Commands;
pub use laws::{
    lemma_array_keeps_order, lemma_i64_round_trip, lemma_integer_reply_passes_through,
    lemma_pair_needs_two_items, lemma_scan_cursor_passes_through, lemma_store_error_always_fails,
    lemma_u64_round_trip,
};
