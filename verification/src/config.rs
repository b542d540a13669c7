//! The stream's configuration, and the argument list that the encoder is
//! started with.

use crate::text::{decimal, decimal_string};
use vstd::prelude::*;
use vstd::string::*;

verus! {

/// The validated parameters of a stream. Made once, and only read after.
pub struct StreamConfig {
    /// Width of the video in pixels.
    pub width: u16,
    /// Height of the video in pixels.
    pub height: u16,
    /// Frames per second; more than zero.
    pub fps: u16,
    /// Upper bound of the encoder's bitrate, in kilobits per second.
    pub max_bitrate_kbps: u16,
    /// Quality on the codec's own scale; smaller is better.
    pub quality: u16,
    /// The encoder binary: a path, or a name to look up.
    pub encoder_path: String,
    /// The image file that is streamed.
    pub image_path: String,
    /// Where the encoder sends the stream; not empty.
    pub destination_url: String,
}

/// The video codec that the encoder is told to use.
pub open spec fn video_codec() -> Seq<char> {
    "libx264"@
}

/// The argument list for the encoder, in the order that it expects. The
/// image comes in on standard input, silence stands in for audio, and a key
/// frame is due every four seconds' worth of frames.
pub open spec fn encoder_arguments(config: StreamConfig) -> Seq<Seq<char>> {
    seq![
        "-stream_loop"@,
        "-1"@,
        "-thread_queue_size"@,
        "16"@,
        "-framerate"@,
        decimal(config.fps as nat),
        "-pix_fmt"@,
        "yuv420p"@,
        "-f"@,
        "image2pipe"@,
        "-i"@,
        "-"@,
        "-f"@,
        "lavfi"@,
        "-i"@,
        "anullsrc=channel_layout=stereo:sample_rate=44100"@,
        "-c:v"@,
        video_codec(),
        "-c:a"@,
        "aac"@,
        "-b:a"@,
        "32k"@,
        "-ac"@,
        "2"@,
        "-ar"@,
        "44100"@,
        "-s"@,
        decimal(config.width as nat) + "x"@ + decimal(config.height as nat),
        "-maxrate"@,
        decimal(config.max_bitrate_kbps as nat) + "k"@,
        "-preset"@,
        "superfast"@,
        "-tune"@,
        "stillimage"@,
        "-bufsize"@,
        "2000k"@,
        "-crf"@,
        decimal(config.quality as nat),
        "-g"@,
        decimal(4 * config.fps as nat),
        "-hide_banner"@,
        "-f"@,
        "flv"@,
        config.destination_url@,
    ]
}

fn push_text(args: &mut Vec<String>, text: &str)
    ensures
        final(args).deep_view() == old(args).deep_view().push(text@),
{
    args.push(String::from_str(text));
    assert(args.deep_view() =~= old(args).deep_view().push(text@));
}

fn push_string(args: &mut Vec<String>, text: String)
    ensures
        final(args).deep_view() == old(args).deep_view().push(text@),
{
    args.push(text);
    assert(args.deep_view() =~= old(args).deep_view().push(text@));
}

impl StreamConfig {
    /// Whether the record holds what the stream needs: a frame rate above
    /// zero and a destination.
    pub open spec fn valid(self) -> bool {
        self.fps > 0 && self.destination_url@.len() > 0
    }

    /// Whether the record holds what the stream needs.
    pub fn is_valid(&self) -> (valid: bool)
        ensures
            valid == self.valid(),
    {
        self.fps > 0 && !self.destination_url.as_str().is_empty()
    }

    /// The argument list to start the encoder with.
    pub fn encoder_args(&self) -> (args: Vec<String>)
        ensures
            args.deep_view() == encoder_arguments(*self),
    {
        let mut resolution = decimal_string(self.width as u32);
        resolution.append("x");
        resolution.append(decimal_string(self.height as u32).as_str());
        let mut max_rate = decimal_string(self.max_bitrate_kbps as u32);
        max_rate.append("k");
        let key_frame_gap: u32 = 4 * (self.fps as u32);

        let mut args: Vec<String> = Vec::new();
        assert(args.deep_view() =~= Seq::<Seq<char>>::empty());
        push_text(&mut args, "-stream_loop");
        push_text(&mut args, "-1");
        push_text(&mut args, "-thread_queue_size");
        push_text(&mut args, "16");
        push_text(&mut args, "-framerate");
        push_string(&mut args, decimal_string(self.fps as u32));
        push_text(&mut args, "-pix_fmt");
        push_text(&mut args, "yuv420p");
        push_text(&mut args, "-f");
        push_text(&mut args, "image2pipe");
        push_text(&mut args, "-i");
        push_text(&mut args, "-");
        push_text(&mut args, "-f");
        push_text(&mut args, "lavfi");
        push_text(&mut args, "-i");
        push_text(&mut args, "anullsrc=channel_layout=stereo:sample_rate=44100");
        push_text(&mut args, "-c:v");
        push_text(&mut args, "libx264");
        push_text(&mut args, "-c:a");
        push_text(&mut args, "aac");
        push_text(&mut args, "-b:a");
        push_text(&mut args, "32k");
        push_text(&mut args, "-ac");
        push_text(&mut args, "2");
        push_text(&mut args, "-ar");
        push_text(&mut args, "44100");
        push_text(&mut args, "-s");
        push_string(&mut args, resolution);
        push_text(&mut args, "-maxrate");
        push_string(&mut args, max_rate);
        push_text(&mut args, "-preset");
        push_text(&mut args, "superfast");
        push_text(&mut args, "-tune");
        push_text(&mut args, "stillimage");
        push_text(&mut args, "-bufsize");
        push_text(&mut args, "2000k");
        push_text(&mut args, "-crf");
        push_string(&mut args, decimal_string(self.quality as u32));
        push_text(&mut args, "-g");
        push_string(&mut args, decimal_string(key_frame_gap));
        push_text(&mut args, "-hide_banner");
        push_text(&mut args, "-f");
        push_text(&mut args, "flv");
        push_text(&mut args, self.destination_url.as_str());
        args
    }
}

} // verus!
