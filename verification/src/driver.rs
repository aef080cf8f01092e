//! What a command-line driver decides before it touches a file: which
//! operation is meant, and what the output file is called.

use vstd::prelude::*;
use vstd::string::*;

verus! {

/// What is to be done with each file.
#[derive(Debug, Clone, Copy, PartialEq, Eq)]
pub enum Operation {
    /// Write the header of a Pico file as text.
    Header,
    /// Encode a file as a Pico file.
    Encode,
    /// Decode a Pico file.
    Decode,
}

impl Operation {
    /// The operation that the switches ask for.
    ///
    /// Files are encoded unless a switch says otherwise; the switch for
    /// decoding wins over the one for the header.
    pub fn select(header: bool, decode: bool) -> (operation: Operation)
        ensures
            operation == if decode {
                Operation::Decode
            } else if header {
                Operation::Header
            } else {
                Operation::Encode
            },
    {
        let mut operation = Operation::Encode;
        if header {
            operation = Operation::Header;
        }
        if decode {
            operation = Operation::Decode;
        }
        operation
    }

    /// The extension that an output file gets where none is asked for:
    /// `.raw` for a decoded file, `.pico` otherwise.
    pub fn default_extension(&self) -> (extension: &'static str)
        ensures
            extension@ == if *self is Decode {
                ".raw"@
            } else {
                ".pico"@
            },
    {
        match self {
            Operation::Decode => ".raw",
            _ => ".pico",
        }
    }
}

/// The name of the output file: the base name of the input, the suffix,
/// and the extension asked for or, where none is, the one that goes with
/// the operation.
pub fn output_name(
    basename: &str,
    suffix: &str,
    extension: Option<&str>,
    operation: &Operation,
) -> (name: String)
    ensures
        name@ == basename@ + suffix@ + match extension {
            Some(given) => given@,
            None => if *operation is Decode {
                ".raw"@
            } else {
                ".pico"@
            },
        },
{
    let ending: &str = match extension {
        Some(given) => given,
        None => operation.default_extension(),
    };
    let mut name: String = basename.to_owned();
    name.append(suffix);
    name.append(ending);
    name
}

} // verus!
