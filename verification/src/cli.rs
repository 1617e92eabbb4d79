//! The command-line surface as plain data: the parsed invocation and its
//! subcommand. Argument parsing itself happens outside the library; the
//! orchestrating binary hands the parsed values over in this shape.

use vstd::prelude::*;

verus! {

/// A parsed invocation: the chosen subcommand.
#[derive(Debug)]
pub struct Cli {
    pub command: Command,
}

/// The three subcommands: print the scaffold confirmation, generate the DDL
/// for a schema file, or explain the decisions for a schema file.
#[derive(Debug)]
pub enum Command {
    Init,
    Generate { schema: String },
    Explain { schema: String },
}

/// The fixed confirmation line the `init` subcommand prints.
pub fn init_message() -> (r: String)
    ensures
        r@ == "Initialized default schema config."@,
{
    "Initialized default schema config.".to_owned()
}

} // verus!
