//! What the command line asks for.
use vstd::prelude::*;
use crate::errors::ErrorVals;
use crate::text::{parse_u32, parse_u32_spec};

verus! {

/// A scrape as the command line describes it.
pub enum Invocation {
    /// Only the input URL: the library directory is the remembered one.
    SavedPath { input_url: String },
    /// The library directory, the input URL, and the chapter argument when
    /// it is not empty.
    GivenPath { user_path: String, input_url: String, chapter_arg: Option<String> },
}

/// Reads the arguments (the program name first): none is `NoURL`; one is
/// the input URL; more are the library directory, the input URL and a
/// chapter argument. Exactly two arguments (three with the program name)
/// are left out, since the chapter argument is then read past the end.
pub fn interpret_args(args: &Vec<String>) -> (r: Result<Invocation, ErrorVals>)
    requires
        args.len() != 3,
    ensures
        args.len() < 2 ==> r == Err::<Invocation, ErrorVals>(ErrorVals::NoURL),
        args.len() == 2 ==> (r matches Ok(Invocation::SavedPath { input_url }) && input_url@
            == args@[1]@),
        args.len() > 3 ==> (r matches Ok(
            Invocation::GivenPath { user_path, input_url, chapter_arg },
        ) && user_path@ == args@[1]@ && input_url@ == args@[2]@ && match chapter_arg {
            Some(c) => args@[3]@.len() > 0 && c@ == args@[3]@,
            None => args@[3]@.len() == 0,
        }),
{
    if args.len() < 2 {
        return Err(ErrorVals::NoURL);
    }
    if args.len() == 2 {
        return Ok(Invocation::SavedPath { input_url: args[1].clone() });
    }
    let chapter_arg = if args[3].as_str().is_empty() {
        None
    } else {
        Some(args[3].clone())
    };
    Ok(Invocation::GivenPath {
        user_path: args[1].clone(),
        input_url: args[2].clone(),
        chapter_arg,
    })
}

/// Reads a chapter argument as a number, the way `str::parse::<u32>` does;
/// `None` when it is not one.
pub fn parse_chapter(arg: &str) -> (r: Option<u32>)
    ensures
        r == parse_u32_spec(arg@),
{
    parse_u32(arg)
}

} // verus!
