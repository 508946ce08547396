//! Argument list for the one-shot export invocation.
//!
//! Exporting runs the external encoder once over the whole timeline: one
//! trimmed input per clip, a filter graph that scales and pads every clip
//! to the fixed output resolution and concatenates video and audio, and
//! the user-chosen output path. The unverified shell passes the arguments
//! to the encoder executable verbatim and maps its exit status to a status
//! message.

use vstd::prelude::*;

use crate::numfmt::dec_digits;
use crate::numfmt::format_secs_2dp;
use crate::numfmt::push_decimal;
use crate::numfmt::push_str;
use crate::numfmt::secs_2dp;
use crate::timeline::all_wf;
use crate::timeline::Clip;
use crate::timeline::ClipV;

verus! {

/// Scale-and-pad stage for input `i` of the filter graph: fit the clip
/// into the fixed output resolution, pad it centred, and label the result.
pub open spec fn scale_pad_part(i: nat) -> Seq<char> {
    "["@ + dec_digits(i)
        + ":v]scale=w=1920:h=1080:force_original_aspect_ratio=decrease,pad=1920:1080:(ow-iw)/2:(oh-ih)/2,setsar=1,setdar=16/9[v"@
        + dec_digits(i) + "];"@
}

/// All scale-and-pad stages for inputs `0 .. n`, in order.
pub open spec fn scale_pad_parts(n: nat) -> Seq<char>
    decreases n,
{
    if n == 0 {
        Seq::empty()
    } else {
        scale_pad_parts((n - 1) as nat) + scale_pad_part((n - 1) as nat)
    }
}

/// Concat operand pair for input `i`: its scaled video label and its audio
/// stream.
pub open spec fn concat_pair(i: nat) -> Seq<char> {
    "[v"@ + dec_digits(i) + "]["@ + dec_digits(i) + ":a]"@
}

/// All concat operand pairs for inputs `0 .. n`, in order.
pub open spec fn concat_pairs(n: nat) -> Seq<char>
    decreases n,
{
    if n == 0 {
        Seq::empty()
    } else {
        concat_pairs((n - 1) as nat) + concat_pair((n - 1) as nat)
    }
}

/// The whole filter graph for `n` inputs: every scale-and-pad stage, then
/// the n-way concat of the labelled streams.
pub open spec fn filter_complex_spec(n: nat) -> Seq<char> {
    scale_pad_parts(n) + concat_pairs(n) + "concat=n="@ + dec_digits(n) + ":v=1:a=1[outv][outa]"@
}

/// Per-clip input arguments: seek to the clip's trim start, read for the
/// trimmed length, name the media file.
pub open spec fn clip_input_args(s: Seq<ClipV>) -> Seq<Seq<char>>
    decreases s.len(),
{
    if s.len() == 0 {
        Seq::empty()
    } else {
        clip_input_args(s.drop_last()) + seq![
            "-ss"@,
            secs_2dp(s.last().trim_start as int),
            "-t"@,
            secs_2dp(s.last().len_ms()),
            "-i"@,
            s.last().path,
        ]
    }
}

/// The full export argument list: overwrite the destination, one trimmed
/// input per clip, the filter graph, the output stream mappings, and the
/// output path.
pub open spec fn export_args_spec(s: Seq<ClipV>, output: Seq<char>) -> Seq<Seq<char>> {
    seq!["-y"@] + clip_input_args(s) + seq![
        "-filter_complex"@,
        filter_complex_spec(s.len()),
        "-map"@,
        "[outv]"@,
        "-map"@,
        "[outa]"@,
        output,
    ]
}

/// Builds the filter graph for `n` inputs.
fn build_filter_complex(n: usize) -> (r: String)
    ensures
        r@ == filter_complex_spec(n as nat),
{
    let mut r = String::new();
    let mut i: usize = 0;
    while i < n
        invariant
            i <= n,
            r@ == scale_pad_parts(i as nat),
        decreases n - i,
    {
        push_str(&mut r, "[");
        push_decimal(&mut r, i as u64);
        push_str(
            &mut r,
            ":v]scale=w=1920:h=1080:force_original_aspect_ratio=decrease,pad=1920:1080:(ow-iw)/2:(oh-ih)/2,setsar=1,setdar=16/9[v",
        );
        push_decimal(&mut r, i as u64);
        push_str(&mut r, "];");
        proof {
            assert(r@ =~= scale_pad_parts(i as nat + 1));
        }
        i = i + 1;
    }
    let mut k: usize = 0;
    while k < n
        invariant
            k <= n,
            r@ == scale_pad_parts(n as nat) + concat_pairs(k as nat),
        decreases n - k,
    {
        push_str(&mut r, "[v");
        push_decimal(&mut r, k as u64);
        push_str(&mut r, "][");
        push_decimal(&mut r, k as u64);
        push_str(&mut r, ":a]");
        proof {
            assert(r@ =~= scale_pad_parts(n as nat) + concat_pairs(k as nat + 1));
        }
        k = k + 1;
    }
    push_str(&mut r, "concat=n=");
    push_decimal(&mut r, n as u64);
    push_str(&mut r, ":v=1:a=1[outv][outa]");
    proof {
        assert(r@ =~= filter_complex_spec(n as nat));
    }
    r
}

/// Renders the export invocation for the given clips and output path. The
/// list is a function of the clips and the path alone.
pub fn export_args(clips: &Vec<Clip>, output: String) -> (r: Vec<String>)
    requires
        all_wf(clips.deep_view()),
    ensures
        r.deep_view() == export_args_spec(clips.deep_view(), output@),
{
    let mut r: Vec<String> = Vec::new();
    r.push("-y".to_owned());
    let mut i: usize = 0;
    while i < clips.len()
        invariant
            all_wf(clips.deep_view()),
            i <= clips@.len(),
            r.deep_view() == seq!["-y"@] + clip_input_args(clips.deep_view().take(i as int)),
        decreases clips@.len() - i,
    {
        let c = &clips[i];
        proof {
            assert(c@ == clips.deep_view()[i as int]);
        }
        let ghost dv0 = r.deep_view();
        r.push("-ss".to_owned());
        proof {
            assert(r.deep_view() =~= dv0.push("-ss"@));
        }
        let ghost dv1 = r.deep_view();
        r.push(format_secs_2dp(c.trim_start as u64));
        proof {
            assert(r.deep_view() =~= dv1.push(secs_2dp(c@.trim_start as int)));
        }
        let ghost dv2 = r.deep_view();
        r.push("-t".to_owned());
        proof {
            assert(r.deep_view() =~= dv2.push("-t"@));
        }
        let ghost dv3 = r.deep_view();
        r.push(format_secs_2dp((c.trim_end - c.trim_start) as u64));
        proof {
            assert(r.deep_view() =~= dv3.push(secs_2dp(c@.len_ms())));
        }
        let ghost dv4 = r.deep_view();
        r.push("-i".to_owned());
        proof {
            assert(r.deep_view() =~= dv4.push("-i"@));
        }
        let ghost dv5 = r.deep_view();
        r.push(c.path.clone());
        proof {
            assert(r.deep_view() =~= dv5.push(c@.path));
        }
        proof {
            let pre = clips.deep_view().take(i as int);
            let cur = clips.deep_view().take(i as int + 1);
            assert(cur.drop_last() =~= pre);
            assert(cur.last() == clips.deep_view()[i as int]);
            assert(clip_input_args(cur) == clip_input_args(pre) + seq![
                "-ss"@,
                secs_2dp(c@.trim_start as int),
                "-t"@,
                secs_2dp(c@.len_ms()),
                "-i"@,
                c@.path,
            ]);
            assert(r.deep_view() =~~= seq!["-y"@] + clip_input_args(cur));
        }
        i = i + 1;
    }
    proof {
        assert(clips.deep_view().take(clips@.len() as int) =~= clips.deep_view());
    }
    let filter = build_filter_complex(clips.len());
    r.push("-filter_complex".to_owned());
    r.push(filter);
    r.push("-map".to_owned());
    r.push("[outv]".to_owned());
    r.push("-map".to_owned());
    r.push("[outa]".to_owned());
    r.push(output);
    proof {
        assert(r.deep_view() =~= export_args_spec(clips.deep_view(), output@));
    }
    r
}

} // verus!
