//! Video encoding: what goes into an encoded frame, how a captured frame is
//! made ready for compression, and what the settings of each encoder are.
//! The compression itself is the work of other crates.
use vstd::prelude::*;
use vstd::string::*;
use crate::config::VideoCodec;
use crate::error::{fails_with, plain, ErrorKind, GhostHandError, Result};
use crate::screen_capture::{Frame, FrameFormat};
use crate::text::concat;

verus! {

/// The quality at which the image encoder compresses.
pub const IMAGE_ENCODER_QUALITY: u8 = 80;

/// What encodes video.
pub trait VideoEncoder {
    /// What the encoder is set up for.
    spec fn settings(&self) -> EncoderInfo;

    /// Encodes a frame: the encoded frame carries the time stamp and the
    /// size of the frame, and the encoder stays set up as it was.
    fn encode(&mut self, frame: &Frame) -> (r: Result<EncodedFrame>)
        ensures
            final(self).settings() == old(self).settings(),
            r matches Ok(encoded) ==> encoded.timestamp == frame.timestamp && encoded.width
                == frame.width && encoded.height == frame.height,
    ;

    /// What the encoder is set up for.
    fn get_info(&self) -> (info: EncoderInfo)
        ensures
            info == self.settings(),
    ;
}

/// An encoded frame
#[derive(Debug)]
pub struct EncodedFrame {
    pub data: Vec<u8>,
    pub timestamp: u64,
    pub is_keyframe: bool,
    pub width: u32,
    pub height: u32,
}

/// What an encoder is set up for
#[derive(Debug, Clone, Copy, PartialEq, Eq, Structural)]
pub struct EncoderInfo {
    pub codec: VideoCodec,
    pub width: u32,
    pub height: u32,
    pub framerate: u32,
    pub bitrate: u32,
    pub hardware_accelerated: bool,
}

/// An encoder that compresses each frame as an image of its own.
#[derive(Debug)]
pub struct ImageEncoder {
    quality: u8,
    info: EncoderInfo,
}

/// Why an image could not be compressed.
#[verifier::external_type_specification]
#[verifier::external_body]
pub struct ExImageError(image::ImageError);

/// The JPEG that `image::codecs::jpeg::JpegEncoder::encode` makes of the
/// pixels `rgb`, three bytes each, of an image of the given size, at the
/// given quality; `None` where it refuses.
pub uninterp spec fn jpeg_encoded(rgb: Seq<u8>, width: u32, height: u32, quality: u8) -> Option<
    Seq<u8>,
>;

/// `image::codecs::jpeg::JpegEncoder::encode` compresses pixels of three
/// bytes each, red, green, blue, into a JPEG, or says why it cannot. There
/// must be as many pixels as the size says.
#[verifier::external_body]
pub(crate) fn jpeg_encode(rgb: &[u8], width: u32, height: u32, quality: u8) -> (r:
    std::result::Result<Vec<u8>, image::ImageError>)
    requires
        rgb.len() == width * height * 3,
    ensures
        match r {
            Ok(bytes) => jpeg_encoded(rgb@, width, height, quality) == Some(bytes@),
            Err(_) => jpeg_encoded(rgb@, width, height, quality) is None,
        },
{
    let mut buffer: Vec<u8> = Vec::new();
    image::codecs::jpeg::JpegEncoder::new_with_quality(&mut buffer, quality).encode(
        rgb,
        width,
        height,
        image::ExtendedColorType::Rgb8,
    )?;
    Ok(buffer)
}

/// The words in which `image::ImageError` describes itself.
#[verifier::external_body]
pub(crate) fn image_error_text(error: &image::ImageError) -> String {
    error.to_string()
}

/// The red, green and blue of the first `pixels` pixels of `data`, four
/// bytes each with the alpha last; with `blue_first`, blue comes first in
/// `data` and red third.
pub open spec fn rgb_of(data: Seq<u8>, pixels: nat, blue_first: bool) -> Seq<u8> {
    Seq::new(
        3 * pixels,
        |i: int|
            {
                let channel = i % 3;
                let source = if blue_first && channel != 1 {
                    2 - channel
                } else {
                    channel
                };
                data[4 * (i / 3) + source]
            },
    )
}

/// The pixels of a frame ready for compression; `None` where the frame is
/// of a format that cannot be compressed, or holds fewer bytes than its
/// size asks for.
pub open spec fn compressible(frame: Frame) -> Option<Seq<u8>> {
    if frame.format != FrameFormat::RGBA && frame.format != FrameFormat::BGRA {
        None
    } else if frame.width * frame.height * 4 > frame.data@.len() {
        None
    } else {
        Some(
            rgb_of(
                frame.data@,
                (frame.width * frame.height) as nat,
                frame.format == FrameFormat::BGRA,
            ),
        )
    }
}

/// The error of a frame that cannot be made ready for compression.
pub open spec fn incompressible_message(frame: Frame) -> Seq<char> {
    if frame.format != FrameFormat::RGBA && frame.format != FrameFormat::BGRA {
        "Unsupported frame format"@
    } else {
        "Failed to create RGBA image"@
    }
}

/// The pixels of a frame ready for compression: three bytes each, red,
/// green, blue. Only frames of four bytes a pixel, red or blue first, can be
/// compressed; bytes beyond the size of the frame are passed over.
pub fn to_rgb(frame: &Frame) -> (r: Result<Vec<u8>>)
    ensures
        match compressible(*frame) {
            Some(rgb) => r matches Ok(bytes) && bytes@ == rgb && bytes@.len() == frame.width
                * frame.height * 3,
            None => fails_with(
                r,
                plain(ErrorKind::VideoEncoding, incompressible_message(*frame)),
            ),
        },
{
    let blue_first = match frame.format {
        FrameFormat::RGBA => false,
        FrameFormat::BGRA => true,
        _ => {
            return Err(GhostHandError::VideoEncoding("Unsupported frame format".to_string()));
        },
    };
    assert(frame.width * frame.height <= u32::MAX * u32::MAX) by (nonlinear_arith)
        requires
            frame.width <= u32::MAX,
            frame.height <= u32::MAX,
    ;
    let pixels: u128 = frame.width as u128 * frame.height as u128;
    if pixels * 4 > frame.data.len() as u128 {
        return Err(GhostHandError::VideoEncoding("Failed to create RGBA image".to_string()));
    }
    let count: usize = pixels as usize;
    let mut rgb: Vec<u8> = Vec::new();
    let mut pixel: usize = 0;
    let ghost want = rgb_of(frame.data@, count as nat, blue_first);
    assert(frame.data@.len() == frame.data.len());
    while pixel < count
        invariant
            pixel <= count,
            count * 4 <= frame.data@.len() <= usize::MAX,
            want == rgb_of(frame.data@, count as nat, blue_first),
            rgb@ == want.take(3 * pixel),
        decreases count - pixel,
    {
        assert(4 * pixel + 3 < count * 4) by (nonlinear_arith)
            requires
                pixel < count,
        ;
        let base: usize = 4 * pixel;
        let first = if blue_first {
            frame.data[base + 2]
        } else {
            frame.data[base]
        };
        let third = if blue_first {
            frame.data[base]
        } else {
            frame.data[base + 2]
        };
        rgb.push(first);
        rgb.push(frame.data[base + 1]);
        rgb.push(third);
        proof {
            let i0 = 3 * pixel;
            assert(i0 % 3 == 0 && i0 / 3 == pixel) by (nonlinear_arith)
                requires
                    i0 == 3 * pixel,
            ;
            assert((i0 + 1) % 3 == 1 && (i0 + 1) / 3 == pixel) by (nonlinear_arith)
                requires
                    i0 == 3 * pixel,
            ;
            assert((i0 + 2) % 3 == 2 && (i0 + 2) / 3 == pixel) by (nonlinear_arith)
                requires
                    i0 == 3 * pixel,
            ;
            assert(rgb@ =~= want.take(3 * (pixel + 1)));
        }
        pixel += 1;
    }
    assert(want.take(3 * count) =~= want);
    Ok(rgb)
}

impl ImageEncoder {
    /// The quality at which the encoder compresses.
    pub closed spec fn quality(&self) -> u8 {
        self.quality
    }

    /// What the encoder is set up for.
    pub closed spec fn info(&self) -> EncoderInfo {
        self.info
    }

    /// An encoder for frames of the given size and rate, at quality 80.
    pub fn new(width: u32, height: u32, framerate: u32) -> (r: Result<Self>)
        ensures
            r matches Ok(encoder) && encoder.quality() == IMAGE_ENCODER_QUALITY && encoder.info()
                == (EncoderInfo {
                codec: VideoCodec::H264,
                width,
                height,
                framerate,
                bitrate: 0,
                hardware_accelerated: false,
            }),
    {
        Ok(
            ImageEncoder {
                quality: IMAGE_ENCODER_QUALITY,
                info: EncoderInfo {
                    codec: VideoCodec::H264,
                    width,
                    height,
                    framerate,
                    bitrate: 0,
                    hardware_accelerated: false,
                },
            },
        )
    }

    /// Sets the quality at which the encoder compresses.
    pub fn set_quality(&mut self, quality: u8)
        ensures
            final(self).quality() == quality,
            final(self).info() == old(self).info(),
    {
        self.quality = quality;
    }
}

/// What the image encoder makes of a frame: the JPEG of its pixels, always a
/// key frame, with the time stamp and the size of the frame. `None` where
/// the frame cannot be made ready or the compression refuses.
pub open spec fn image_encoded(frame: Frame, quality: u8) -> Option<Seq<u8>> {
    match compressible(frame) {
        Some(rgb) => jpeg_encoded(rgb, frame.width, frame.height, quality),
        None => None,
    }
}

impl VideoEncoder for ImageEncoder {
    open spec fn settings(&self) -> EncoderInfo {
        self.info()
    }

    fn encode(&mut self, frame: &Frame) -> (r: Result<EncodedFrame>)
        ensures
            final(self).quality() == old(self).quality(),
            final(self).info() == old(self).info(),
            match image_encoded(*frame, old(self).quality()) {
                Some(jpeg) => r matches Ok(encoded) && encoded.data@ == jpeg && encoded.timestamp
                    == frame.timestamp && encoded.is_keyframe && encoded.width == frame.width
                    && encoded.height == frame.height,
                None => r matches Err(e) && e@.kind == ErrorKind::VideoEncoding,
            },
    {
        let rgb = match to_rgb(frame) {
            Ok(rgb) => rgb,
            Err(error) => {
                return Err(error);
            },
        };
        match jpeg_encode(rgb.as_slice(), frame.width, frame.height, self.quality) {
            Ok(data) => Ok(
                EncodedFrame {
                    data,
                    timestamp: frame.timestamp,
                    is_keyframe: true,
                    width: frame.width,
                    height: frame.height,
                },
            ),
            Err(error) => Err(
                GhostHandError::VideoEncoding(
                    concat("Failed to encode JPEG: ", image_error_text(&error).as_str()),
                ),
            ),
        }
    }

    fn get_info(&self) -> (info: EncoderInfo) {
        self.info
    }
}

/// The encoder for the configuration: the image encoder, whatever the codec
/// and the bitrate asked for.
pub fn create_encoder(codec: VideoCodec, width: u32, height: u32, framerate: u32, bitrate: u32)
    -> (r: Result<Box<dyn VideoEncoder>>)
    ensures
        r matches Ok(encoder) && encoder.settings() == (EncoderInfo {
            codec: VideoCodec::H264,
            width,
            height,
            framerate,
            bitrate: 0,
            hardware_accelerated: false,
        }),
{
    match ImageEncoder::new(width, height, framerate) {
        Ok(encoder) => Ok(Box::new(encoder)),
        Err(error) => Err(error),
    }
}

/// What was found of the hardware that could speed up encoding.
#[derive(Debug, Clone, Copy, PartialEq, Eq, Structural)]
pub struct HardwareProbe {
    /// The tool of an NVIDIA card answered.
    pub nvidia: bool,
    /// A direct-rendering device is there.
    pub direct_rendering: bool,
    /// The system is one that always brings its own acceleration.
    pub video_toolbox: bool,
}

/// The names of the accelerations that a probe found, in the order NVENC,
/// QSV, VideoToolbox.
pub open spec fn accelerations(probe: HardwareProbe) -> Seq<Seq<char>> {
    (if probe.nvidia {
        seq!["NVENC (NVIDIA)"@]
    } else {
        Seq::empty()
    }) + (if probe.direct_rendering {
        seq!["QSV (Intel Quick Sync)"@]
    } else {
        Seq::empty()
    }) + (if probe.video_toolbox {
        seq!["VideoToolbox (Apple)"@]
    } else {
        Seq::empty()
    })
}

/// The names of the accelerations that a probe found.
pub fn detect_hardware_acceleration(probe: HardwareProbe) -> (available: Vec<String>)
    ensures
        crate::peer::texts(available@) == accelerations(probe),
{
    let mut available: Vec<String> = Vec::new();
    if probe.nvidia {
        available.push("NVENC (NVIDIA)".to_string());
    }
    if probe.direct_rendering {
        available.push("QSV (Intel Quick Sync)".to_string());
    }
    if probe.video_toolbox {
        available.push("VideoToolbox (Apple)".to_string());
    }
    assert(crate::peer::texts(available@) =~= accelerations(probe));
    available
}


/// Bytes of the stand-in that an encoded frame holds where the codec gave
/// nothing out.
pub const EMPTY_FRAME_FILL_SIZE: usize = 100;

/// The steps of setting up the codec library.
#[derive(Debug, Clone, Copy, PartialEq, Eq, Structural)]
pub enum FfmpegStage {
    Init,
    FindCodec,
    CreateContext,
    Preset,
    Tune,
    Profile,
    Open,
    Scaler,
}

/// What the codec library is set up with.
#[derive(Debug)]
pub struct EncoderSettings {
    /// The name of the codec in the library
    pub codec_name: String,
    pub width: u32,
    pub height: u32,
    /// The unit of time: one over the framerate
    pub time_base: (i32, i32),
    /// The framerate, over one
    pub frame_rate: (i32, i32),
    /// The bitrate in bits per second
    pub bit_rate: u64,
    /// Whether the codec is tuned for low latency: the fastest preset, no
    /// latency, the baseline profile
    pub low_latency: bool,
}

/// A packet that the codec gave out.
#[derive(Debug)]
pub struct Packet {
    pub data: Vec<u8>,
    pub is_key: bool,
}

/// How the encoding of a frame by the codec library ended.
#[derive(Debug)]
pub enum FfmpegOutcome {
    /// The frame could not be converted to the pixel format of the codec.
    ScalingFailed(String),
    /// The converted frame could not be handed to the codec.
    SendFailed(String),
    /// The packets that the codec gave out for the frame.
    Packets(Vec<Packet>),
}

/// An encoder on top of the codec library.
#[derive(Debug)]
pub struct FFmpegEncoder {
    info: EncoderInfo,
    frame_number: i64,
}

/// The name of a codec in the library.
pub open spec fn codec_name_of(codec: VideoCodec) -> Seq<char> {
    match codec {
        VideoCodec::H264 => "libx264"@,
        VideoCodec::H265 => "libx265"@,
        VideoCodec::VP8 => "libvpx"@,
        VideoCodec::VP9 => "libvpx-vp9"@,
        VideoCodec::AV1 => "libaom-av1"@,
    }
}

/// The error of a step of the setup that failed.
pub open spec fn setup_error(codec: VideoCodec, stage: FfmpegStage, reason: Seq<char>) -> Seq<
    char,
> {
    match stage {
        FfmpegStage::Init => "Erreur d'initialisation FFmpeg: "@ + reason,
        FfmpegStage::FindCodec => "Codec "@ + codec_name_of(codec) + " non trouvé"@,
        FfmpegStage::CreateContext => "Erreur de création du contexte: "@ + reason,
        FfmpegStage::Preset => "Erreur preset: "@ + reason,
        FfmpegStage::Tune => "Erreur tune: "@ + reason,
        FfmpegStage::Profile => "Erreur profile: "@ + reason,
        FfmpegStage::Open => "Erreur d'ouverture de l'encodeur: "@ + reason,
        FfmpegStage::Scaler => "Erreur de création du scaler: "@ + reason,
    }
}

/// A number of frames as the library counts them: the largest `i32` for
/// any larger one.
pub open spec fn as_count(n: u32) -> i32 {
    if n > i32::MAX {
        i32::MAX
    } else {
        n as i32
    }
}

/// The data of all packets, one after the other.
pub open spec fn joined(packets: Seq<Packet>) -> Seq<u8>
    decreases packets.len(),
{
    if packets.len() == 0 {
        Seq::empty()
    } else {
        joined(packets.drop_last()) + packets.last().data@
    }
}

/// The data of an encoded frame: that of the packets, or a hundred zero
/// bytes where the packets hold nothing.
pub open spec fn packet_data(packets: Seq<Packet>) -> Seq<u8> {
    if joined(packets).len() == 0 {
        Seq::new(EMPTY_FRAME_FILL_SIZE as nat, |i: int| 0u8)
    } else {
        joined(packets)
    }
}

/// `count` plus one, stopping at the largest `i64`.
pub open spec fn next_frame_number(count: i64) -> i64 {
    if count == i64::MAX {
        count
    } else {
        (count + 1) as i64
    }
}

impl FFmpegEncoder {
    /// What the encoder is set up for.
    pub closed spec fn info(&self) -> EncoderInfo {
        self.info
    }

    /// Frames that were handed to the codec.
    pub closed spec fn frame_number(&self) -> i64 {
        self.frame_number
    }

    /// The name of a codec in the library.
    pub fn codec_name(codec: VideoCodec) -> (name: &'static str)
        ensures
            name@ == codec_name_of(codec),
    {
        match codec {
            VideoCodec::H264 => "libx264",
            VideoCodec::H265 => "libx265",
            VideoCodec::VP8 => "libvpx",
            VideoCodec::VP9 => "libvpx-vp9",
            VideoCodec::AV1 => "libaom-av1",
        }
    }

    /// What the codec library is to be set up with: the size, the time base
    /// and framerate, the bitrate in bits per second, and for H.264 the
    /// tuning for low latency.
    pub fn plan(codec: VideoCodec, width: u32, height: u32, framerate: u32, bitrate: u32)
        -> (settings: EncoderSettings)
        ensures
            settings.codec_name@ == codec_name_of(codec),
            settings.width == width,
            settings.height == height,
            settings.time_base == (1i32, as_count(framerate)),
            settings.frame_rate == (as_count(framerate), 1i32),
            settings.bit_rate == bitrate * 1000,
            settings.low_latency == (codec == VideoCodec::H264),
    {
        let count: i32 = if framerate > i32::MAX as u32 {
            i32::MAX
        } else {
            framerate as i32
        };
        EncoderSettings {
            codec_name: Self::codec_name(codec).to_string(),
            width,
            height,
            time_base: (1, count),
            frame_rate: (count, 1),
            bit_rate: bitrate as u64 * 1000,
            low_latency: match codec {
                VideoCodec::H264 => true,
                _ => false,
            },
        }
    }

    /// Takes in how the setup of the codec library ended; `failure` is
    /// `None` where it is set up, else the step that failed and why.
    pub fn new(
        codec: VideoCodec,
        width: u32,
        height: u32,
        framerate: u32,
        bitrate: u32,
        failure: Option<(FfmpegStage, String)>,
    ) -> (r: Result<Self>)
        ensures
            match failure {
                None => r matches Ok(encoder) && encoder.frame_number() == 0 && encoder.info()
                    == (EncoderInfo {
                    codec,
                    width,
                    height,
                    framerate,
                    bitrate,
                    hardware_accelerated: false,
                }),
                Some((stage, reason)) => fails_with(
                    r,
                    plain(ErrorKind::VideoEncoding, setup_error(codec, stage, reason@)),
                ),
            },
    {
        match failure {
            None => Ok(
                FFmpegEncoder {
                    info: EncoderInfo {
                        codec,
                        width,
                        height,
                        framerate,
                        bitrate,
                        hardware_accelerated: false,
                    },
                    frame_number: 0,
                },
            ),
            Some((stage, reason)) => {
                let message = match stage {
                    FfmpegStage::Init => concat("Erreur d'initialisation FFmpeg: ", reason.as_str()),
                    FfmpegStage::FindCodec => crate::text::concat3(
                        "Codec ",
                        Self::codec_name(codec),
                        " non trouvé",
                    ),
                    FfmpegStage::CreateContext => concat(
                        "Erreur de création du contexte: ",
                        reason.as_str(),
                    ),
                    FfmpegStage::Preset => concat("Erreur preset: ", reason.as_str()),
                    FfmpegStage::Tune => concat("Erreur tune: ", reason.as_str()),
                    FfmpegStage::Profile => concat("Erreur profile: ", reason.as_str()),
                    FfmpegStage::Open => concat(
                        "Erreur d'ouverture de l'encodeur: ",
                        reason.as_str(),
                    ),
                    FfmpegStage::Scaler => concat(
                        "Erreur de création du scaler: ",
                        reason.as_str(),
                    ),
                };
                Err(GhostHandError::VideoEncoding(message))
            },
        }
    }

    /// What the encoder is set up for.
    pub fn get_info(&self) -> (info: EncoderInfo)
        ensures
            info == self.info(),
    {
        self.info
    }

    /// The presentation time of the next frame: the number of frames that
    /// were handed to the codec before it.
    pub fn next_pts(&self) -> (pts: i64)
        ensures
            pts == self.frame_number(),
    {
        self.frame_number
    }

    /// Takes in how the encoding of `frame` by the codec ended. A frame
    /// that was converted counts as handed to the codec. The encoded frame
    /// holds the data of all packets, a stand-in of a hundred zero bytes
    /// where they hold none; it is a key frame where the last packet is one.
    pub fn encode(&mut self, frame: &Frame, outcome: FfmpegOutcome) -> (r: Result<EncodedFrame>)
        ensures
            final(self).info() == old(self).info(),
            match outcome {
                FfmpegOutcome::ScalingFailed(reason) => final(self).frame_number() == old(
                    self,
                ).frame_number() && fails_with(
                    r,
                    plain(ErrorKind::VideoEncoding, "Erreur de scaling: "@ + reason@),
                ),
                FfmpegOutcome::SendFailed(reason) => final(self).frame_number()
                    == next_frame_number(old(self).frame_number()) && fails_with(
                    r,
                    plain(ErrorKind::VideoEncoding, "Erreur d'envoi de frame: "@ + reason@),
                ),
                FfmpegOutcome::Packets(packets) => final(self).frame_number()
                    == next_frame_number(old(self).frame_number()) && (r matches Ok(encoded)
                    && encoded.data@ == packet_data(packets@) && encoded.timestamp
                    == frame.timestamp && encoded.width == frame.width && encoded.height
                    == frame.height && encoded.is_keyframe == (packets@.len() > 0
                    && packets@.last().is_key)),
            },
    {
        match outcome {
            FfmpegOutcome::ScalingFailed(reason) => Err(
                GhostHandError::VideoEncoding(concat("Erreur de scaling: ", reason.as_str())),
            ),
            FfmpegOutcome::SendFailed(reason) => {
                self.count_frame();
                Err(
                    GhostHandError::VideoEncoding(
                        concat("Erreur d'envoi de frame: ", reason.as_str()),
                    ),
                )
            },
            FfmpegOutcome::Packets(packets) => {
                self.count_frame();
                let mut data: Vec<u8> = Vec::new();
                let mut is_keyframe = false;
                let mut i: usize = 0;
                assert(packets@.take(0) =~= Seq::<Packet>::empty());
                while i < packets.len()
                    invariant
                        i <= packets.len(),
                        data@ == joined(packets@.take(i as int)),
                        is_keyframe == (i > 0 && packets@[i - 1].is_key),
                    decreases packets.len() - i,
                {
                    assert(packets@.take(i + 1).drop_last() =~= packets@.take(i as int));
                    assert(packets@.take(i + 1).last() == packets@[i as int]);
                    let packet = &packets[i];
                    let mut k: usize = 0;
                    let ghost before = data@;
                    while k < packet.data.len()
                        invariant
                            k <= packet.data.len(),
                            data@ == before + packet.data@.take(k as int),
                        decreases packet.data.len() - k,
                    {
                        data.push(packet.data[k]);
                        assert(data@ =~= before + packet.data@.take(k + 1));
                        k += 1;
                    }
                    assert(packet.data@.take(packet.data.len() as int) =~= packet.data@);
                    is_keyframe = packet.is_key;
                    i += 1;
                }
                assert(packets@.take(packets.len() as int) =~= packets@);
                if data.len() == 0 {
                    let mut k: usize = 0;
                    while k < EMPTY_FRAME_FILL_SIZE
                        invariant
                            k <= EMPTY_FRAME_FILL_SIZE,
                            data@ == Seq::new(k as nat, |i: int| 0u8),
                        decreases EMPTY_FRAME_FILL_SIZE - k,
                    {
                        data.push(0);
                        assert(data@ =~= Seq::new((k + 1) as nat, |i: int| 0u8));
                        k += 1;
                    }
                }
                Ok(
                    EncodedFrame {
                        data,
                        timestamp: frame.timestamp,
                        is_keyframe,
                        width: frame.width,
                        height: frame.height,
                    },
                )
            },
        }
    }

    fn count_frame(&mut self)
        ensures
            final(self).info() == old(self).info(),
            final(self).frame_number() == next_frame_number(old(self).frame_number()),
    {
        if self.frame_number < i64::MAX {
            self.frame_number = self.frame_number + 1;
        }
    }
}

} // verus!
