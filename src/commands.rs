use crate::generic_commands::GenericCommands;
use crate::server_commands::ServerCommands;
use vstd::prelude::*;

verus! {

/// The command catalogue, with no connection attached: its methods only
/// build requests.
pub struct Commands;

impl GenericCommands for Commands {

}

impl ServerCommands for Commands {

}

} // verus!
