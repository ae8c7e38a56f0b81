//! Builds the external encoder invocation: the exact argument list handed
//! to the encoder process for one attempt, including hardware-acceleration
//! flags, codec choice, rate control, preset, audio and container options,
//! and the extra arguments of each pass of a two-pass encode.

use vstd::prelude::*;
use vstd::string::*;

use crate::encoders::{
    spec_codec_name, spec_nvenc_preset, spec_software_preset, HardwareEncoder,
};
use crate::estimator::{audio_kbps_for_duration, spec_audio_kbps};
use crate::settings::CompressionSettings;
use crate::text::{append_decimal, spec_decimal};

verus! {

/// Appends one literal argument.
fn push_lit(v: &mut Vec<String>, s: &str)
    ensures
        final(v).deep_view() == old(v).deep_view().push(s@),
{
    v.push(String::from_str(s));
    proof {
        assert(v.deep_view() =~= old(v).deep_view().push(s@));
    }
}

/// Appends one owned argument.
fn push_arg(v: &mut Vec<String>, s: String)
    ensures
        final(v).deep_view() == old(v).deep_view().push(s@),
{
    let ghost sv = s@;
    v.push(s);
    proof {
        assert(v.deep_view() =~= old(v).deep_view().push(sv));
    }
}

/// The argument list as plain character sequences.
pub open spec fn spec_arg_views(s: Seq<String>) -> Seq<Seq<char>> {
    Seq::new(s.len(), |i: int| s[i]@)
}

proof fn lemma_arg_views_concat(a: Seq<String>, b: Seq<String>)
    ensures
        spec_arg_views(a + b) == spec_arg_views(a) + spec_arg_views(b),
{
    assert(spec_arg_views(a + b) =~= spec_arg_views(a) + spec_arg_views(b));
}

proof fn lemma_deep_view_is_arg_views(v: Vec<String>)
    ensures
        v.deep_view() == spec_arg_views(v@),
{
    assert(v.deep_view() =~= spec_arg_views(v@));
}

/// A bitrate argument: the number followed by `k`.
fn kbps_arg(n: u64) -> (r: String)
    ensures
        r@ == spec_decimal(n as int) + "k"@,
{
    let mut s = String::new();
    append_decimal(&mut s, n);
    s.append("k");
    proof {
        assert(s@ =~= spec_decimal(n as int) + "k"@);
    }
    s
}

/// Hardware-acceleration input flags, by backend.
pub open spec fn spec_hwaccel_args(s: CompressionSettings) -> Seq<Seq<char>> {
    if s.enable_hardware_accel {
        match s.hardware_encoder {
            HardwareEncoder::NvencH264 | HardwareEncoder::NvencH265 | HardwareEncoder::NvencAV1 => {
                seq!["-hwaccel"@, "cuda"@] + (match s.cuda_device_id {
                    Some(id) => seq!["-hwaccel_device"@, spec_decimal(id as int)],
                    None => Seq::<Seq<char>>::empty(),
                })
            },
            HardwareEncoder::Vaapi => seq![
                "-hwaccel"@,
                "vaapi"@,
                "-hwaccel_device"@,
                "/dev/dri/renderD128"@,
            ],
            HardwareEncoder::VideoToolbox => seq!["-hwaccel"@, "videotoolbox"@],
            _ => Seq::<Seq<char>>::empty(),
        }
    } else {
        Seq::<Seq<char>>::empty()
    }
}

/// The codec identifier handed to the encoder process: compatibility mode
/// forces the H.264 flavor of the chosen backend.
pub open spec fn spec_invocation_codec(s: CompressionSettings) -> Seq<char> {
    if s.compatibility_mode {
        match s.hardware_encoder {
            HardwareEncoder::NvencH264 | HardwareEncoder::NvencH265 | HardwareEncoder::NvencAV1 =>
                "h264_nvenc"@,
            HardwareEncoder::AmfH264 | HardwareEncoder::AmfH265 => "h264_amf"@,
            HardwareEncoder::QsvH264 | HardwareEncoder::QsvH265 | HardwareEncoder::QsvAV1 =>
                "h264_qsv"@,
            HardwareEncoder::Vaapi => "h264_vaapi"@,
            HardwareEncoder::VideoToolbox => "h264_videotoolbox"@,
            HardwareEncoder::Software => "libx264"@,
        }
    } else {
        spec_codec_name(s.hardware_encoder)
    }
}

/// Bitrate, peak and buffer arguments for a target bitrate in kbps.
pub open spec fn spec_rate_args(bitrate_kbps: u32) -> Seq<Seq<char>> {
    seq![
        "-b:v"@,
        spec_decimal(bitrate_kbps as int) + "k"@,
        "-maxrate"@,
        spec_decimal(bitrate_kbps as int) + "k"@,
        "-bufsize"@,
        spec_decimal(2 * bitrate_kbps) + "k"@,
    ]
}

/// Preset and rate-control arguments, by backend.
pub open spec fn spec_preset_args(s: CompressionSettings) -> Seq<Seq<char>> {
    match s.hardware_encoder {
        HardwareEncoder::Software => seq!["-preset"@, spec_software_preset(s.hardware_preset)],
        HardwareEncoder::NvencH264 | HardwareEncoder::NvencH265 | HardwareEncoder::NvencAV1 => seq![
            "-preset"@,
            spec_nvenc_preset(s.hardware_preset),
            "-rc"@,
            "vbr"@,
            "-multipass"@,
            "fullres"@,
            "-cq"@,
            "0"@,
        ],
        HardwareEncoder::AmfH264 | HardwareEncoder::AmfH265 => seq![
            "-quality"@,
            "speed"@,
            "-rc"@,
            "vbr_latency"@,
        ],
        HardwareEncoder::QsvH264 | HardwareEncoder::QsvH265 | HardwareEncoder::QsvAV1 => seq![
            "-preset"@,
            "medium"@,
            "-look_ahead"@,
            "1"@,
        ],
        HardwareEncoder::Vaapi => seq!["-profile"@, "main"@, "-level"@, "4.0"@],
        HardwareEncoder::VideoToolbox => seq!["-profile"@, "main"@],
    }
}

/// Stereo AAC audio at the duration-dependent allowance.
pub open spec fn spec_audio_args(duration_seconds: u32) -> Seq<Seq<char>> {
    seq![
        "-c:a"@,
        "aac"@,
        "-b:a"@,
        spec_decimal(spec_audio_kbps(duration_seconds) as int) + "k"@,
        "-ac"@,
        "2"@,
    ]
}

/// Container flags: streaming-friendly layout and a compatible pixel
/// format.
pub open spec fn spec_container_args() -> Seq<Seq<char>> {
    seq!["-movflags"@, "+faststart"@, "-pix_fmt"@, "yuv420p"@]
}

pub open spec fn spec_thread_args(s: CompressionSettings) -> Seq<Seq<char>> {
    if s.memory_optimization {
        seq!["-threads"@, "1"@]
    } else {
        Seq::<Seq<char>>::empty()
    }
}

/// The complete argument list for one encode of `input` to `output` at the
/// given video bitrate.
pub open spec fn spec_invocation_args(
    input: Seq<char>,
    output: Seq<char>,
    s: CompressionSettings,
    bitrate_kbps: u32,
    duration_seconds: u32,
) -> Seq<Seq<char>> {
    spec_hwaccel_args(s) + seq!["-i"@, input, "-y"@] + seq!["-c:v"@, spec_invocation_codec(s)]
        + spec_rate_args(bitrate_kbps) + spec_preset_args(s) + spec_audio_args(duration_seconds)
        + spec_container_args() + spec_thread_args(s) + seq![output]
}

fn hwaccel_vec(settings: &CompressionSettings) -> (r: Vec<String>)
    ensures
        spec_arg_views(r@) == spec_hwaccel_args(*settings),
{
    let mut v: Vec<String> = Vec::new();
    if settings.enable_hardware_accel {
        match settings.hardware_encoder {
            HardwareEncoder::NvencH264 | HardwareEncoder::NvencH265 | HardwareEncoder::NvencAV1 => {
                push_lit(&mut v, "-hwaccel");
                push_lit(&mut v, "cuda");
                match settings.cuda_device_id {
                    Some(id) => {
                        push_lit(&mut v, "-hwaccel_device");
                        let mut ds = String::new();
                        append_decimal(&mut ds, id as u64);
                        push_arg(&mut v, ds);
                    },
                    None => {},
                }
            },
            HardwareEncoder::Vaapi => {
                push_lit(&mut v, "-hwaccel");
                push_lit(&mut v, "vaapi");
                push_lit(&mut v, "-hwaccel_device");
                push_lit(&mut v, "/dev/dri/renderD128");
            },
            HardwareEncoder::VideoToolbox => {
                push_lit(&mut v, "-hwaccel");
                push_lit(&mut v, "videotoolbox");
            },
            _ => {},
        }
    }
    proof {
        lemma_deep_view_is_arg_views(v);
        assert(v.deep_view() =~= spec_hwaccel_args(*settings));
    }
    v
}

fn codec_vec(settings: &CompressionSettings) -> (r: Vec<String>)
    ensures
        spec_arg_views(r@) == seq!["-c:v"@, spec_invocation_codec(*settings)],
{
    let mut v: Vec<String> = Vec::new();
    push_lit(&mut v, "-c:v");
    let codec: &'static str = if settings.compatibility_mode {
        match settings.hardware_encoder {
            HardwareEncoder::NvencH264 | HardwareEncoder::NvencH265 | HardwareEncoder::NvencAV1 =>
                "h264_nvenc",
            HardwareEncoder::AmfH264 | HardwareEncoder::AmfH265 => "h264_amf",
            HardwareEncoder::QsvH264 | HardwareEncoder::QsvH265 | HardwareEncoder::QsvAV1 =>
                "h264_qsv",
            HardwareEncoder::Vaapi => "h264_vaapi",
            HardwareEncoder::VideoToolbox => "h264_videotoolbox",
            HardwareEncoder::Software => "libx264",
        }
    } else {
        settings.hardware_encoder.codec_name()
    };
    push_lit(&mut v, codec);
    proof {
        lemma_deep_view_is_arg_views(v);
        assert(v.deep_view() =~= seq!["-c:v"@, spec_invocation_codec(*settings)]);
    }
    v
}

fn rate_vec(target_bitrate_kbps: u32) -> (r: Vec<String>)
    ensures
        spec_arg_views(r@) == spec_rate_args(target_bitrate_kbps),
{
    let mut v: Vec<String> = Vec::new();
    push_lit(&mut v, "-b:v");
    push_arg(&mut v, kbps_arg(target_bitrate_kbps as u64));
    push_lit(&mut v, "-maxrate");
    push_arg(&mut v, kbps_arg(target_bitrate_kbps as u64));
    push_lit(&mut v, "-bufsize");
    push_arg(&mut v, kbps_arg(2 * (target_bitrate_kbps as u64)));
    proof {
        lemma_deep_view_is_arg_views(v);
        assert(v.deep_view() =~= spec_rate_args(target_bitrate_kbps));
    }
    v
}

fn preset_vec(settings: &CompressionSettings) -> (r: Vec<String>)
    ensures
        spec_arg_views(r@) == spec_preset_args(*settings),
{
    let mut v: Vec<String> = Vec::new();
    match settings.hardware_encoder {
        HardwareEncoder::Software => {
            push_lit(&mut v, "-preset");
            push_lit(&mut v, settings.hardware_preset.software_preset());
        },
        HardwareEncoder::NvencH264 | HardwareEncoder::NvencH265 | HardwareEncoder::NvencAV1 => {
            push_lit(&mut v, "-preset");
            push_lit(&mut v, settings.hardware_preset.nvenc_preset());
            push_lit(&mut v, "-rc");
            push_lit(&mut v, "vbr");
            push_lit(&mut v, "-multipass");
            push_lit(&mut v, "fullres");
            push_lit(&mut v, "-cq");
            push_lit(&mut v, "0");
        },
        HardwareEncoder::AmfH264 | HardwareEncoder::AmfH265 => {
            push_lit(&mut v, "-quality");
            push_lit(&mut v, "speed");
            push_lit(&mut v, "-rc");
            push_lit(&mut v, "vbr_latency");
        },
        HardwareEncoder::QsvH264 | HardwareEncoder::QsvH265 | HardwareEncoder::QsvAV1 => {
            push_lit(&mut v, "-preset");
            push_lit(&mut v, "medium");
            push_lit(&mut v, "-look_ahead");
            push_lit(&mut v, "1");
        },
        HardwareEncoder::Vaapi => {
            push_lit(&mut v, "-profile");
            push_lit(&mut v, "main");
            push_lit(&mut v, "-level");
            push_lit(&mut v, "4.0");
        },
        HardwareEncoder::VideoToolbox => {
            push_lit(&mut v, "-profile");
            push_lit(&mut v, "main");
        },
    }
    proof {
        lemma_deep_view_is_arg_views(v);
        assert(v.deep_view() =~= spec_preset_args(*settings));
    }
    v
}

fn audio_vec(duration_seconds: u32) -> (r: Vec<String>)
    ensures
        spec_arg_views(r@) == spec_audio_args(duration_seconds),
{
    let mut v: Vec<String> = Vec::new();
    push_lit(&mut v, "-c:a");
    push_lit(&mut v, "aac");
    push_lit(&mut v, "-b:a");
    let audio = audio_kbps_for_duration(duration_seconds);
    push_arg(&mut v, kbps_arg(audio as u64));
    push_lit(&mut v, "-ac");
    push_lit(&mut v, "2");
    proof {
        lemma_deep_view_is_arg_views(v);
        assert(v.deep_view() =~= spec_audio_args(duration_seconds));
    }
    v
}

fn container_thread_vec(settings: &CompressionSettings) -> (r: Vec<String>)
    ensures
        spec_arg_views(r@) == spec_container_args() + spec_thread_args(*settings),
{
    let mut v: Vec<String> = Vec::new();
    push_lit(&mut v, "-movflags");
    push_lit(&mut v, "+faststart");
    push_lit(&mut v, "-pix_fmt");
    push_lit(&mut v, "yuv420p");
    if settings.memory_optimization {
        push_lit(&mut v, "-threads");
        push_lit(&mut v, "1");
    }
    proof {
        lemma_deep_view_is_arg_views(v);
        assert(v.deep_view() =~= spec_container_args() + spec_thread_args(*settings));
    }
    v
}

/// Builds the encoder process's argument list for one attempt.
pub fn build_invocation_args(
    input: &str,
    output: &str,
    settings: &CompressionSettings,
    target_bitrate_kbps: u32,
    duration_seconds: u32,
) -> (r: Vec<String>)
    ensures
        r.deep_view() == spec_invocation_args(
            input@,
            output@,
            *settings,
            target_bitrate_kbps,
            duration_seconds,
        ),
{
    let mut cmd = hwaccel_vec(settings);
    let ghost g0 = cmd@;

    let mut io: Vec<String> = Vec::new();
    push_lit(&mut io, "-i");
    push_arg(&mut io, String::from_str(input));
    push_lit(&mut io, "-y");
    proof {
        lemma_deep_view_is_arg_views(io);
        assert(io.deep_view() =~= seq!["-i"@, input@, "-y"@]);
    }
    let ghost gio = io@;
    cmd.append(&mut io);
    proof {
        lemma_arg_views_concat(g0, gio);
    }
    let ghost g1 = cmd@;

    let mut seg = codec_vec(settings);
    let ghost gseg = seg@;
    cmd.append(&mut seg);
    proof {
        lemma_arg_views_concat(g1, gseg);
    }
    let ghost g2 = cmd@;

    let mut seg = rate_vec(target_bitrate_kbps);
    let ghost gseg = seg@;
    cmd.append(&mut seg);
    proof {
        lemma_arg_views_concat(g2, gseg);
    }
    let ghost g3 = cmd@;

    let mut seg = preset_vec(settings);
    let ghost gseg = seg@;
    cmd.append(&mut seg);
    proof {
        lemma_arg_views_concat(g3, gseg);
    }
    let ghost g4 = cmd@;

    let mut seg = audio_vec(duration_seconds);
    let ghost gseg = seg@;
    cmd.append(&mut seg);
    proof {
        lemma_arg_views_concat(g4, gseg);
    }
    let ghost g5 = cmd@;

    let mut seg = container_thread_vec(settings);
    let ghost gseg = seg@;
    cmd.append(&mut seg);
    proof {
        lemma_arg_views_concat(g5, gseg);
    }
    let ghost g6 = cmd@;

    push_arg(&mut cmd, String::from_str(output));
    proof {
        lemma_deep_view_is_arg_views(cmd);
        assert(spec_arg_views(g6).push(output@) =~= spec_arg_views(g6) + seq![output@]);
        assert(cmd.deep_view() =~= spec_arg_views(g6) + seq![output@]);
        assert(cmd.deep_view() =~= spec_invocation_args(
            input@,
            output@,
            *settings,
            target_bitrate_kbps,
            duration_seconds,
        ));
    }
    cmd
}

/// Extra arguments of the analysis pass of a two-pass encode: the pass
/// number and statistics log, no audio, and a discarded null output.
pub open spec fn spec_first_pass_extra(log_base: Seq<char>) -> Seq<Seq<char>> {
    seq!["-pass"@, "1"@, "-passlogfile"@, log_base, "-an"@, "-f"@, "null"@, "/dev/null"@]
}

pub fn first_pass_extra_args(log_base: &str) -> (r: Vec<String>)
    ensures
        r.deep_view() == spec_first_pass_extra(log_base@),
{
    let mut v: Vec<String> = Vec::new();
    push_lit(&mut v, "-pass");
    push_lit(&mut v, "1");
    push_lit(&mut v, "-passlogfile");
    push_arg(&mut v, String::from_str(log_base));
    push_lit(&mut v, "-an");
    push_lit(&mut v, "-f");
    push_lit(&mut v, "null");
    push_lit(&mut v, "/dev/null");
    proof {
        assert(v.deep_view() =~= spec_first_pass_extra(log_base@));
    }
    v
}

/// Extra arguments of the encoding pass of a two-pass encode: reuse the
/// statistics of pass one.
pub open spec fn spec_second_pass_extra(log_base: Seq<char>) -> Seq<Seq<char>> {
    seq!["-pass"@, "2"@, "-passlogfile"@, log_base]
}

pub fn second_pass_extra_args(log_base: &str) -> (r: Vec<String>)
    ensures
        r.deep_view() == spec_second_pass_extra(log_base@),
{
    let mut v: Vec<String> = Vec::new();
    push_lit(&mut v, "-pass");
    push_lit(&mut v, "2");
    push_lit(&mut v, "-passlogfile");
    push_arg(&mut v, String::from_str(log_base));
    proof {
        assert(v.deep_view() =~= spec_second_pass_extra(log_base@));
    }
    v
}

/// Extra arguments that make a one-pass encode report progress on its
/// diagnostic stream.
pub open spec fn spec_progress_extra() -> Seq<Seq<char>> {
    seq!["-progress"@, "pipe:2"@]
}

pub fn progress_extra_args() -> (r: Vec<String>)
    ensures
        r.deep_view() == spec_progress_extra(),
{
    let mut v: Vec<String> = Vec::new();
    push_lit(&mut v, "-progress");
    push_lit(&mut v, "pipe:2");
    proof {
        assert(v.deep_view() =~= spec_progress_extra());
    }
    v
}

/// The statistics files a two-pass encode leaves behind, removed
/// unconditionally after pass two.
pub open spec fn spec_pass_log_files(log_base: Seq<char>) -> Seq<Seq<char>> {
    seq![log_base + "-0.log"@, log_base + "-0.log.mbtree"@]
}

pub fn pass_log_files(log_base: &str) -> (r: Vec<String>)
    ensures
        r.deep_view() == spec_pass_log_files(log_base@),
{
    let mut v: Vec<String> = Vec::new();
    let mut a = String::from_str(log_base);
    a.append("-0.log");
    push_arg(&mut v, a);
    let mut b = String::from_str(log_base);
    b.append("-0.log.mbtree");
    push_arg(&mut v, b);
    proof {
        assert(v.deep_view() =~= spec_pass_log_files(log_base@));
    }
    v
}

} // verus!
