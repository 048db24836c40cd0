//! Picking one file out of a directory listing at random.
use rand::seq::SliceRandom;
use std::path::PathBuf;
use vstd::prelude::*;

verus! {

#[verifier::external_type_specification]
#[verifier::external_body]
pub struct ExPathBuf(PathBuf);

/// Calls `SliceRandom::choose` with the thread's random number generator.
/// rand documents that it gives one element of the slice, or none when the
/// slice is empty; which element depends on chance.
#[verifier::external_body]
fn choose_one<T>(items: &[T]) -> (chosen: Option<&T>)
    ensures
        chosen is None <==> items@.len() == 0,
        chosen matches Some(item) ==> items@.contains(*item),
{
    items.choose(&mut rand::thread_rng())
}

/// One of `files`, chosen at random; none when there are no files.
pub fn choose_random_file(files: &Vec<PathBuf>) -> (chosen: Option<&PathBuf>)
    ensures
        chosen is None <==> files@.len() == 0,
        chosen matches Some(file) ==> files@.contains(*file),
{
    choose_one(files.as_slice())
}

} // verus!
