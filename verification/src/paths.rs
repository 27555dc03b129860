//! Paths as texts: where the output goes and where an ingredient is looked for.
//!
//! Splitting and joining are `std::path`'s, for the platform the crate is built
//! for; whether something is there on disk is for the caller to find out.

use crate::error::{Failure, PipelineError};
use vstd::prelude::*;

verus! {

/// The final component of `path`, as `Path::file_name` gives it.
pub uninterp spec fn path_file_name(path: Seq<char>) -> Option<Seq<char>>;

/// The extension of the final component of `path`, as `Path::extension` gives it.
pub uninterp spec fn path_extension(path: Seq<char>) -> Option<Seq<char>>;

/// Whether `path` is absolute, as `Path::is_absolute` tells.
pub uninterp spec fn path_is_absolute(path: Seq<char>) -> bool;

/// `base` extended by `path`, as `Path::join` gives it.
pub uninterp spec fn path_join(base: Seq<char>, path: Seq<char>) -> Seq<char>;

/// `path` as `std::path::Path` writes it for debugging: between quotation marks,
/// with what does not print written as an escape.
pub uninterp spec fn path_quoted(path: Seq<char>) -> Seq<char>;

/// Formats `Path::new(path)` with its `Debug`. The contract claims that the
/// outcome depends on the text of `path` alone.
#[verifier::external_body]
pub(crate) fn quoted(path: &str) -> (r: String)
    ensures
        r@ == path_quoted(path@),
{
    format!("{:?}", std::path::Path::new(path))
}

/// The directory of `path`, as `Path::parent` gives it.
pub uninterp spec fn path_parent(path: Seq<char>) -> Option<Seq<char>>;

/// Calls `Path::parent`. The contract claims that the outcome depends on the
/// text of `path` alone.
#[verifier::external_body]
pub(crate) fn parent(path: &str) -> (r: Option<String>)
    ensures
        match path_parent(path@) {
            Some(directory) => r is Some && r->0@ == directory,
            None => r is None,
        },
{
    std::path::Path::new(path).parent().map(|directory| directory.to_string_lossy().into_owned())
}

/// Calls `Path::file_name`. The contract claims that the outcome depends on the
/// text of `path` alone.
#[verifier::external_body]
pub(crate) fn file_name(path: &str) -> (r: Option<String>)
    ensures
        match path_file_name(path@) {
            Some(name) => r is Some && r->0@ == name,
            None => r is None,
        },
{
    std::path::Path::new(path).file_name().map(|name| name.to_string_lossy().into_owned())
}

/// Calls `Path::extension`. The contract claims that the outcome depends on the
/// text of `path` alone.
#[verifier::external_body]
pub(crate) fn extension(path: &str) -> (r: Option<String>)
    ensures
        match path_extension(path@) {
            Some(ext) => r is Some && r->0@ == ext,
            None => r is None,
        },
{
    std::path::Path::new(path).extension().map(|ext| ext.to_string_lossy().into_owned())
}

/// Calls `Path::is_absolute`. The contract claims that the outcome depends on the
/// text of `path` alone.
#[verifier::external_body]
pub(crate) fn is_absolute(path: &str) -> (r: bool)
    ensures
        r == path_is_absolute(path@),
{
    std::path::Path::new(path).is_absolute()
}

/// Calls `Path::join`. The contract claims that the outcome depends on the two
/// texts alone.
#[verifier::external_body]
pub(crate) fn join(base: &str, path: &str) -> (r: String)
    ensures
        r@ == path_join(base@, path@),
{
    std::path::Path::new(base).join(path).to_string_lossy().into_owned()
}

/// Where the output goes, once the file name of the input is known and has been
/// joined to the output directory: at `output` itself unless that is a directory,
/// else at `joined`; without a file name there is no place in a directory.
pub open spec fn selected_output(
    output: Seq<char>,
    output_is_dir: bool,
    input: Seq<char>,
    joined: Option<Seq<char>>,
) -> Result<Seq<char>, Failure> {
    if !output_is_dir {
        Ok(output)
    } else {
        match joined {
            Some(path) => Ok(path),
            None => Err(Failure::NoFileName { path: input }),
        }
    }
}

/// `output` extended by the file name of `input`, where `input` has one.
pub open spec fn joined_output(input: Seq<char>, output: Seq<char>) -> Option<Seq<char>> {
    match path_file_name(input) {
        Some(name) => Some(path_join(output, name)),
        None => None,
    }
}

/// What [`determine_output_path`] returns.
pub open spec fn output_path_of(input: Seq<char>, output: Seq<char>, output_is_dir: bool) -> Result<
    Seq<char>,
    Failure,
> {
    selected_output(output, output_is_dir, input, joined_output(input, output))
}

/// Chooses between `output` and `joined`, the place of the input's file name
/// inside `output`.
pub fn select_output_path(
    output: &str,
    output_is_dir: bool,
    input: &str,
    joined: Option<String>,
) -> (r: Result<String, PipelineError>)
    ensures
        match selected_output(
            output@,
            output_is_dir,
            input@,
            match joined {
                Some(path) => Some(path@),
                None => None,
            },
        ) {
            Ok(path) => r is Ok && r->Ok_0@ == path,
            Err(failure) => r is Err && r->Err_0@ == failure,
        },
{
    if !output_is_dir {
        Ok(output.to_owned())
    } else {
        match joined {
            Some(path) => Ok(path),
            None => Err(PipelineError::NoFileName { path: input.to_owned() }),
        }
    }
}

/// The path at which the signed asset is written: inside `output`, under the file
/// name of `input`, where `output` is a directory, and at `output` itself where it
/// is not. `output_is_dir` is what the caller found on disk.
pub fn determine_output_path(input: &str, output: &str, output_is_dir: bool) -> (r: Result<
    String,
    PipelineError,
>)
    ensures
        match output_path_of(input@, output@, output_is_dir) {
            Ok(path) => r is Ok && r->Ok_0@ == path,
            Err(failure) => r is Err && r->Err_0@ == failure,
        },
{
    let joined = match file_name(input) {
        Some(name) => Some(join(output, name.as_str())),
        None => None,
    };
    select_output_path(output, output_is_dir, input, joined)
}

/// Where the file of an ingredient is looked for: at `file_path` itself where that
/// is absolute, else at `file_path` below `base`.
pub open spec fn resolved_path(base: Seq<char>, file_path: Seq<char>) -> Seq<char> {
    if path_is_absolute(file_path) {
        file_path
    } else {
        path_join(base, file_path)
    }
}

/// Resolves the declared path of an ingredient against the base directory.
pub fn resolve_path(base: &str, file_path: &str) -> (r: String)
    ensures
        r@ == resolved_path(base@, file_path@),
{
    if is_absolute(file_path) {
        file_path.to_owned()
    } else {
        join(base, file_path)
    }
}

/// The directory beside the file at `path`: the directory of the path, or the
/// empty path where it has none.
pub open spec fn directory_of(path: Seq<char>) -> Seq<char> {
    match path_parent(path) {
        Some(directory) => directory,
        None => Seq::empty(),
    }
}

/// Computes [`directory_of`].
pub fn directory(path: &str) -> (r: String)
    ensures
        r@ == directory_of(path@),
{
    match parent(path) {
        Some(directory) => directory,
        None => String::new(),
    }
}

/// An output that is no directory is taken as it is, whatever the input.
pub proof fn lemma_plain_output_is_kept(input: Seq<char>, output: Seq<char>)
    ensures
        output_path_of(input, output, false) == Ok::<Seq<char>, Failure>(output),
{
}

} // verus!
