use vstd::prelude::*;

use crate::formats::AcceptedFormats;
use crate::pixel::PixelFormat;
use crate::run::{RunConfig, RunMode};

verus! {

/// An I/O error of the output sink, carried through as it is.
#[verifier::external_type_specification]
#[verifier::external_body]
pub struct ExIoError(std::io::Error);

/// What `Path::with_extension` makes of a path and an extension.
pub uninterp spec fn path_with_extension(path: Seq<char>, extension: Seq<char>) -> Seq<char>;

/// An extension that `Path::with_extension` takes: it holds no path
/// separator.
pub open spec fn is_plain_extension(extension: Seq<char>) -> bool {
    forall|i: int| 0 <= i < extension.len() ==> extension[i] != '/' && extension[i] != '\\'
}

/// Relies on `std::path::Path::with_extension`: the path with its file
/// name's extension replaced by `extension` (or added). The result depends
/// on the two strings alone. It panics on an extension that holds a path
/// separator, which `requires` leaves out.
#[verifier::external_body]
pub(crate) fn with_extension(path: &str, extension: &str) -> (r: String)
    requires
        is_plain_extension(extension@),
    ensures
        r@ == path_with_extension(path@, extension@),
{
    std::path::Path::new(path).with_extension(extension).to_string_lossy().into_owned()
}

/// One output format: what it accepts from the decode stage and where its
/// output goes. The pipeline depends on this interface only.
pub trait EncoderTask {
    spec fn spec_accepted_formats() -> Seq<PixelFormat>;

    spec fn spec_accepted_alpha_formats() -> Seq<PixelFormat>;

    /// The layouts that the task's frame conversion can read.
    spec fn spec_convertible_formats() -> Seq<PixelFormat>;

    /// The extension of the output file.
    spec fn spec_extension() -> Seq<char>;

    /// The accepted opaque formats, the preferred one first.
    fn accepted_formats() -> (r: Vec<PixelFormat>)
        ensures
            r@ == Self::spec_accepted_formats(),
    ;

    /// The accepted formats with alpha, the preferred one first.
    fn accepted_alpha_formats() -> (r: Vec<PixelFormat>)
        ensures
            r@ == Self::spec_accepted_alpha_formats(),
    ;

    fn convertible_formats() -> (r: Vec<PixelFormat>)
        ensures
            r@ == Self::spec_convertible_formats(),
    ;

    /// The output file: `output_name` with the format's extension.
    fn make_output_path(output_name: &str) -> (r: String)
        ensures
            r@ == path_with_extension(output_name@, Self::spec_extension()),
    ;
}

impl AcceptedFormats {
    pub fn for_task<T: EncoderTask>() -> (r: Self)
        ensures
            r.regular@ == T::spec_accepted_formats(),
            r.alpha@ == T::spec_accepted_alpha_formats(),
    {
        AcceptedFormats { regular: T::accepted_formats(), alpha: T::accepted_alpha_formats() }
    }
}

/// The set-up of an encoder run of task `T`.
pub fn run_config<T: EncoderTask>(mode: RunMode, end_ms: i64) -> (r: RunConfig)
    ensures
        r.mode == mode,
        r.convertible@ == T::spec_convertible_formats(),
        r.end_ms == end_ms,
{
    RunConfig { mode, convertible: T::convertible_formats(), end_ms }
}

} // verus!
