use vstd::prelude::*;
use vstd::string::StringExecFns;

use crate::errors::PipelineError;
use crate::features::str_eq;

verus! {

/// Which volume codec a file is read and written with. Dispatch is by file
/// extension alone, and an unrecognized extension is refused before any
/// byte is touched.
#[derive(Clone, Copy, Debug, PartialEq, Eq, Structural)]
pub enum CodecKind {
    /// The compressed volumetric-image format.
    Nifti,
    /// The raw-volume format, under either of its two extensions.
    Nrrd,
}

/// The codec responsible for a file extension: `nii` routes to the
/// volumetric-image codec, `nhdr` and `nrrd` to the raw-volume codec, and
/// anything else is a hard unsupported-extension failure.
pub fn codec_for_extension(ext: &str) -> (r: Result<CodecKind, PipelineError>)
    ensures
        match r {
            Ok(k) => {
                &&& (k == CodecKind::Nifti <==> ext@ == "nii"@)
                &&& (k == CodecKind::Nrrd <==> (ext@ == "nhdr"@ || ext@ == "nrrd"@))
            },
            Err(e) => {
                &&& e is InvalidInput
                &&& ext@ != "nii"@
                &&& ext@ != "nhdr"@
                &&& ext@ != "nrrd"@
            },
        },
{
    proof {
        reveal_strlit("nii");
        reveal_strlit("nhdr");
        reveal_strlit("nrrd");
        assert("nii"@.len() == 3);
        assert("nhdr"@.len() == 4);
        assert("nrrd"@.len() == 4);
        assert("nii"@ != "nhdr"@);
        assert("nii"@ != "nrrd"@);
    }
    if str_eq(ext, "nii") {
        Ok(CodecKind::Nifti)
    } else if str_eq(ext, "nhdr") || str_eq(ext, "nrrd") {
        Ok(CodecKind::Nrrd)
    } else {
        Err(PipelineError::InvalidInput("only nrrd and nifti volumes are supported".to_owned()))
    }
}

/// The name a result volume is written under: the input volume's file stem,
/// an underscore, and the feature's tag.
pub fn output_file_name(stem: &str, tag: &str) -> (r: String)
    ensures
        r@ == stem@ + "_"@ + tag@,
{
    let s = stem.to_owned();
    let s = s.concat("_");
    let s = s.concat(tag);
    s
}

} // verus!
