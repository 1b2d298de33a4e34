//! The values that the command-line surface hands the library: which
//! operation to run and on what, as plain strings. Argument parsing
//! itself lives outside the library.

use vstd::prelude::*;

verus! {

/// The parsed command line: one command to run.
pub struct Cli {
    pub command: Commands,
}

/// The operations the tool offers.
pub enum Commands {
    Encode(EncodeArgs),
    Decode(DecodeArgs),
    Remove(RemoveArgs),
    Print(PrintArgs),
}

/// Hide a message in a file under a chunk type.
pub struct EncodeArgs {
    pub file_path: String,
    pub chunk_type: String,
    pub message: String,
    pub output_file: Option<String>,
}

/// Read the message stored under a chunk type.
pub struct DecodeArgs {
    pub file_path: String,
    pub chunk_type: String,
}

/// Remove the chunk stored under a chunk type.
pub struct RemoveArgs {
    pub file_path: String,
    pub chunk_type: String,
}

/// Show the chunks of a file.
pub struct PrintArgs {
    pub file_path: String,
}

} // verus!
