//! Validation of the command line: exactly two positional arguments, the
//! input bundle path and the output file path.

use vstd::prelude::*;

verus! {

/// The two positional arguments of a valid invocation.
pub struct Invocation {
    /// Path of the bundle (or of an arbitrary path, which falls back to the
    /// default icon).
    pub bundle_path: String,
    /// Path the PNG output is written to.
    pub output_path: String,
}

/// The message shown when the argument count is wrong.
pub open spec fn spec_usage_message() -> Seq<char> {
    "This program expects two arguments."@
}

/// Validates the positional arguments (the program name excluded): exactly
/// two are accepted, anything else yields the usage message and asks for no
/// work at all.
pub fn parse_invocation(args: &Vec<String>) -> (r: Result<Invocation, String>)
    ensures
        r is Ok <==> args@.len() == 2,
        r matches Ok(inv) ==> inv.bundle_path@ == args@[0]@ && inv.output_path@ == args@[1]@,
        r matches Err(msg) ==> msg@ == spec_usage_message(),
{
    if args.len() == 2 {
        Ok(Invocation { bundle_path: args[0].clone(), output_path: args[1].clone() })
    } else {
        Err("This program expects two arguments.".to_owned())
    }
}

} // verus!
