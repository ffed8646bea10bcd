use vstd::prelude::*;

use crate::image;

verus! {

/// What the command line asks for: where to save the rendered image.
pub struct Cli {
    pub save_path: String,
}

impl Cli {
    /// Reads the arguments of the program, its own name first: exactly one
    /// argument must follow, the path to save the image to.
    pub fn new(args: &[String]) -> (cli: Option<Cli>)
        ensures
            cli.is_some() <==> args@.len() == 2,
            cli matches Some(c) ==> c.save_path@ == args@[1]@,
    {
        if args.len() == 2 {
            Some(Cli { save_path: args[1].clone() })
        } else {
            None
        }
    }
}

/// Why a run of the program failed.
pub enum Error {
    /// The command line does not hold exactly one argument.
    Cli,
    /// The rendered image could not be written.
    ImgWriteIO(std::io::Error),
}

/// The failure of a run that an image write failure makes.
pub open spec fn run_error_of(e: image::Error) -> Error {
    match e {
        image::Error::WriteIO(io) => Error::ImgWriteIO(io),
    }
}

impl From<image::Error> for Error {
    fn from(e: image::Error) -> (r: Error)
        ensures
            r == run_error_of(e),
    {
        match e {
            image::Error::WriteIO(e) => Error::ImgWriteIO(e),
        }
    }
}

impl vstd::std_specs::convert::FromSpecImpl<image::Error> for Error {
    open spec fn obeys_from_spec() -> bool {
        true
    }

    open spec fn from_spec(e: image::Error) -> Error {
        run_error_of(e)
    }
}

} // verus!
