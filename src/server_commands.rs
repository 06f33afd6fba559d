use crate::command::{cmd, Command};
use vstd::prelude::*;
use vstd::utf8::encode_utf8;

verus! {

/// How a database flush runs.
#[derive(Clone, Copy, Debug, PartialEq, Eq)]
pub enum FlushingMode {
    /// The store's configured default.
    Default,
    /// Flushes in the background.
    Async,
    /// Flushes before replying.
    Sync,
}

impl Default for FlushingMode {
    fn default() -> (r: Self)
        ensures
            r is Default,
    {
        FlushingMode::Default
    }
}

/// The argument tokens that a flushing mode adds.
pub open spec fn flushing_mode_args(mode: FlushingMode) -> Seq<Seq<u8>> {
    match mode {
        FlushingMode::Default => Seq::empty(),
        FlushingMode::Async => seq![encode_utf8("ASYNC"@)],
        FlushingMode::Sync => seq![encode_utf8("SYNC"@)],
    }
}

fn flush_command(name: &str, flushing_mode: FlushingMode) -> (r: Command)
    ensures
        r@.0 == encode_utf8(name@),
        r@.1 == flushing_mode_args(flushing_mode),
{
    let command = cmd(name);
    let r = match flushing_mode {
        FlushingMode::Default => command,
        FlushingMode::Async => command.arg("ASYNC"),
        FlushingMode::Sync => command.arg("SYNC"),
    };
    assert(r@.1 =~= flushing_mode_args(flushing_mode));
    r
}

/// Commands of the server management group. The reply to each decodes as
/// `()`.
pub trait ServerCommands {
    /// Deletes all keys of the current database.
    fn flushdb(&self, flushing_mode: FlushingMode) -> (r: Command)
        ensures
            r@.0 == encode_utf8("FLUSHDB"@),
            r@.1 == flushing_mode_args(flushing_mode),
    {
        flush_command("FLUSHDB", flushing_mode)
    }

    /// Deletes all keys of every database.
    fn flushall(&self, flushing_mode: FlushingMode) -> (r: Command)
        ensures
            r@.0 == encode_utf8("FLUSHALL"@),
            r@.1 == flushing_mode_args(flushing_mode),
    {
        flush_command("FLUSHALL", flushing_mode)
    }
}

} // verus!
