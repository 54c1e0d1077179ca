//! Validation of the command line: the tool takes exactly four positional
//! values — target pattern, replacement template, input path, output path.

use vstd::prelude::*;

verus! {

/// The four positional values of one invocation, in command-line order.
#[derive(Debug)]
pub struct Arguments {
    /// The regular-expression pattern to search for.
    pub target: String,
    /// The substitution template; it may reference capture groups.
    pub replacement: String,
    /// The path of the input file.
    pub filename: String,
    /// The path of the output file; it may equal `filename`.
    pub output: String,
}

/// The arguments hold exactly the four values of `argv`, positionally.
pub open spec fn args_from(a: Arguments, argv: Seq<String>) -> bool {
    &&& argv.len() == 4
    &&& a.target@ == argv[0]@
    &&& a.replacement@ == argv[1]@
    &&& a.filename@ == argv[2]@
    &&& a.output@ == argv[3]@
}

/// Consume the process's argument list (without the program name).  Exactly
/// four values yield an `Arguments`; any other count is rejected, and the
/// count that was received comes back with the error.
pub fn parse_args(argv: &Vec<String>) -> (r: Result<Arguments, usize>)
    ensures
        r is Ok <==> argv@.len() == 4,
        r is Ok ==> args_from(r->Ok_0, argv@),
        r is Err ==> r->Err_0 == argv@.len(),
{
    if argv.len() != 4 {
        return Err(argv.len());
    }
    Ok(
        Arguments {
            target: argv[0].clone(),
            replacement: argv[1].clone(),
            filename: argv[2].clone(),
            output: argv[3].clone(),
        },
    )
}

} // verus!
