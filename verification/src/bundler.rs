//! The build pipeline: validate the input and output paths, run the
//! external bundler, and only then let the patch pass run over the bundler's
//! output.
//!
//! Validation and bundling never panic on a bad path or a failing bundle:
//! every failure is returned as an [`Error`] value, with the bundler's full
//! error list retained.

use crate::error::Error;
use vstd::prelude::*;

verus! {

/// What the surrounding tooling observed of a path before the build.
pub struct PathStatus {
    /// The path exists on disk.
    pub exists: bool,
    /// The path is a directory (rather than a single file).
    pub is_dir: bool,
}

/// Relies on `darklua_core::process` with `Resources::from_file_system()`:
/// bundles the tree at `input` into `output` according to the transform
/// configuration file at `config`, and on failure reports its full error
/// list, one message per error. Whether it succeeds depends on what is on
/// disk, so nothing more is promised of the outcome.
#[verifier::external_body]
fn run_bundler(input: &Vec<u8>, output: &Vec<u8>, config: &Vec<u8>) -> (r: Result<
    (),
    Vec<Vec<u8>>,
>)
{
    let paths = (std::str::from_utf8(input), std::str::from_utf8(output), std::str::from_utf8(config));
    let (i, o, c) = match paths {
        (Ok(i), Ok(o), Ok(c)) => (i, o, c),
        _ => return Err(vec![b"path is not valid text".to_vec()]),
    };
    let opts = darklua_core::Options::new(i).with_configuration_at(c).with_output(o);
    match darklua_core::process(&darklua_core::Resources::from_file_system(), opts) {
        Ok(tree) => tree.result().map_err(|es| es.iter().map(|e| format!("{e:?}").into_bytes()).collect()),
        Err(e) => Err(vec![format!("{e:?}").into_bytes()]),
    }
}

/// Validates the paths and runs the bundler over them.
///
/// The input and output must exist and be the same shape (both directories
/// or both single files); a violation is reported without any bundling. On
/// bundler failure the full error list is returned and no patch pass may
/// run. On success the caller continues with the patch pass over the output
/// ([`crate::patch::patch_directory`] for a directory,
/// [`crate::patch::patch_source`] for a single file).
pub fn build(
    input: &PathStatus,
    output: &PathStatus,
    input_path: &Vec<u8>,
    output_path: &Vec<u8>,
    config_path: &Vec<u8>,
) -> (r: Result<(), Error>)
    ensures
        input.is_dir != output.is_dir ==> r == Err::<(), Error>(Error::InputOutputMismatch),
        input.is_dir == output.is_dir && !input.exists ==> r == Err::<(), Error>(
            Error::InputMissing,
        ),
        input.is_dir == output.is_dir && input.exists && !output.exists ==> r == Err::<(), Error>(
            Error::OutputMissing,
        ),
        input.is_dir == output.is_dir && input.exists && output.exists ==> (r is Ok || (
        r matches Err(e) && e is Darklua)),
{
    if input.is_dir != output.is_dir {
        return Err(Error::InputOutputMismatch);
    }
    if !input.exists {
        return Err(Error::InputMissing);
    }
    if !output.exists {
        return Err(Error::OutputMissing);
    }
    match run_bundler(input_path, output_path, config_path) {
        Ok(()) => Ok(()),
        Err(msgs) => Err(Error::Darklua(msgs)),
    }
}

} // verus!
