use vstd::prelude::*;
use crate::text::{contains_str, has_infix};

verus! {

/// The external tool that turns the finished animation into a video.
pub const TOOL: &'static str = "ffmpeg";

/// What the tool's version report must name for the video codec to be there.
pub const CODEC_FLAG: &'static str = "--enable-libx264";

/// The video codec asked of the tool.
pub const VIDEO_CODEC: &'static str = "libx264";

/// The filter: a pixel format the codec takes, and each side rounded down to
/// an even number of pixels, which the codec requires.
pub const EVEN_SIZE_FILTER: &'static str = "format=yuv420p,scale=(iw/2)*2:(ih/2)*2";

/// Why the optional video step did not run or did not finish.
#[derive(Clone, Copy, Debug, PartialEq, Eq, Structural)]
pub enum TranscodeError {
    /// The tool is missing, or it was built without the codec.
    ToolUnavailable,
    /// The tool ran and failed.
    Failed,
}

/// Decides, from the tool's version report, whether the codec is there.
pub fn codec_probe_verdict(version_text: &str) -> (r: Result<(), TranscodeError>)
    ensures
        r is Ok <==> has_infix(version_text@, CODEC_FLAG@),
        r is Err ==> r == Err::<(), TranscodeError>(TranscodeError::ToolUnavailable),
{
    if contains_str(version_text, CODEC_FLAG) {
        Ok(())
    } else {
        Err(TranscodeError::ToolUnavailable)
    }
}

/// Decides how a run of the tool went: a tool that could not be started is
/// unavailable, and one that exited with a failure status failed.
pub fn transcode_outcome(launched: bool, exit_success: bool) -> (r: Result<(), TranscodeError>)
    ensures
        !launched ==> r == Err::<(), TranscodeError>(TranscodeError::ToolUnavailable),
        launched && !exit_success ==> r == Err::<(), TranscodeError>(TranscodeError::Failed),
        r is Ok <==> launched && exit_success,
{
    if !launched {
        Err(TranscodeError::ToolUnavailable)
    } else if !exit_success {
        Err(TranscodeError::Failed)
    } else {
        Ok(())
    }
}

/// The arguments of the tool that turn the file `input` into the video file
/// `output`, overwriting it.
pub fn transcode_args(input: &str, output: &str) -> (r: Vec<String>)
    ensures
        r@.len() == 8,
        r@[0]@ == "-i"@,
        r@[1]@ == input@,
        r@[2]@ == "-vf"@,
        r@[3]@ == EVEN_SIZE_FILTER@,
        r@[4]@ == "-c:v"@,
        r@[5]@ == VIDEO_CODEC@,
        r@[6]@ == "-y"@,
        r@[7]@ == output@,
{
    let mut args: Vec<String> = Vec::new();
    args.push("-i".to_owned());
    args.push(input.to_owned());
    args.push("-vf".to_owned());
    args.push(EVEN_SIZE_FILTER.to_owned());
    args.push("-c:v".to_owned());
    args.push(VIDEO_CODEC.to_owned());
    args.push("-y".to_owned());
    args.push(output.to_owned());
    args
}

} // verus!
