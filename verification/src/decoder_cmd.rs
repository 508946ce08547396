//! Argument lists for the external decoder tool.
//!
//! A continuous invocation seeks to the start offset, stops at the end
//! offset and streams raw frames to standard output; a one-shot invocation
//! seeks to one offset and emits exactly one frame. Both scale to the fixed
//! preview resolution and use 4-byte RGBA raw output. The unverified shell
//! passes these arguments to the decoder executable verbatim, with standard
//! error discarded and standard output captured.

use vstd::prelude::*;

use crate::frame::PREVIEW_HEIGHT;
use crate::frame::PREVIEW_WIDTH;
use crate::numfmt::dec_digits;
use crate::numfmt::push_char;
use crate::numfmt::push_decimal;
use crate::numfmt::push_str;
use crate::numfmt::secs_3dp;
use crate::player::SpawnRequest;
use crate::player::SpawnV;

verus! {

/// The scale filter argument, `scale=<width>:<height>`, built from the
/// fixed preview dimensions.
pub open spec fn scale_filter() -> Seq<char> {
    "scale="@ + dec_digits(PREVIEW_WIDTH as nat) + seq![':'] + dec_digits(PREVIEW_HEIGHT as nat)
}

/// The full argument list for one spawn request.
///
/// Continuous: seek to `start_ms`, decode until `end_ms`, stream raw RGBA
/// frames at preview scale to standard output.
/// One-shot: seek to `at_ms` and emit exactly one such frame.
pub open spec fn decoder_args_spec(sp: SpawnV) -> Seq<Seq<char>> {
    match sp {
        SpawnV::Continuous { path, start_ms, end_ms } => seq![
            "-ss"@,
            secs_3dp(start_ms),
            "-to"@,
            secs_3dp(end_ms),
            "-i"@,
            path,
            "-vf"@,
            scale_filter(),
            "-pix_fmt"@,
            "rgba"@,
            "-f"@,
            "rawvideo"@,
            "-"@,
        ],
        SpawnV::OneShot { path, at_ms } => seq![
            "-ss"@,
            secs_3dp(at_ms),
            "-i"@,
            path,
            "-frames:v"@,
            "1"@,
            "-vf"@,
            scale_filter(),
            "-pix_fmt"@,
            "rgba"@,
            "-f"@,
            "rawvideo"@,
            "-"@,
        ],
    }
}

/// Builds the `scale=<width>:<height>` argument.
fn build_scale_filter() -> (r: String)
    ensures
        r@ == scale_filter(),
{
    let mut r = String::new();
    push_str(&mut r, "scale=");
    push_decimal(&mut r, PREVIEW_WIDTH as u64);
    push_char(&mut r, ':');
    push_decimal(&mut r, PREVIEW_HEIGHT as u64);
    proof {
        assert(r@ =~= scale_filter());
    }
    r
}

/// Renders a spawn request as the decoder's argument list. The list is a
/// function of the request alone, so equal requests always produce the
/// identical invocation.
pub fn decoder_args(req: &SpawnRequest) -> (r: Vec<String>)
    ensures
        r.deep_view() == decoder_args_spec(req@),
{
    let mut r: Vec<String> = Vec::new();
    match req {
        SpawnRequest::Continuous { path, start_ms, end_ms } => {
            r.push("-ss".to_owned());
            r.push(crate::numfmt::format_secs_3dp(*start_ms));
            r.push("-to".to_owned());
            r.push(crate::numfmt::format_secs_3dp(*end_ms));
            r.push("-i".to_owned());
            r.push(path.clone());
            r.push("-vf".to_owned());
            r.push(build_scale_filter());
            r.push("-pix_fmt".to_owned());
            r.push("rgba".to_owned());
            r.push("-f".to_owned());
            r.push("rawvideo".to_owned());
            r.push("-".to_owned());
        },
        SpawnRequest::OneShot { path, at_ms } => {
            r.push("-ss".to_owned());
            r.push(crate::numfmt::format_secs_3dp(*at_ms));
            r.push("-i".to_owned());
            r.push(path.clone());
            r.push("-frames:v".to_owned());
            r.push("1".to_owned());
            r.push("-vf".to_owned());
            r.push(build_scale_filter());
            r.push("-pix_fmt".to_owned());
            r.push("rgba".to_owned());
            r.push("-f".to_owned());
            r.push("rawvideo".to_owned());
            r.push("-".to_owned());
        },
    }
    proof {
        assert(r.deep_view() =~= decoder_args_spec(req@));
    }
    r
}

} // verus!
