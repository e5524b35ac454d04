//! The three positional arguments of a run.

use vstd::prelude::*;

verus! {

/// The paths that a run is given: the two source images and the output.
#[derive(Debug)]
pub struct Args {
    pub image_1: String,
    pub image_2: String,
    pub output: String,
}

/// A copy of argument `n` of an argument list.
fn get_nth_arg(args: &Vec<String>, n: usize) -> (arg: String)
    requires
        n < args.len(),
    ensures
        arg@ == args@[n as int]@,
{
    args[n].clone()
}

impl Args {
    /// Reads the three paths off an argument list as a program receives it:
    /// the program's own name first, then the first source image, the second
    /// source image and the output. What follows them is not looked at.
    pub fn new(args: &Vec<String>) -> (parsed: Self)
        requires
            args.len() > 3,
        ensures
            parsed.image_1@ == args@[1]@,
            parsed.image_2@ == args@[2]@,
            parsed.output@ == args@[3]@,
    {
        Args {
            image_1: get_nth_arg(args, 1),
            image_2: get_nth_arg(args, 2),
            output: get_nth_arg(args, 3),
        }
    }
}

} // verus!
