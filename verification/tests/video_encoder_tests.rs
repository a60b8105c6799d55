use ghost_hand_client::config::VideoCodec;
use ghost_hand_client::error::{GhostHandError, Result};
use ghost_hand_client::screen_capture::{Frame, FrameFormat};
use ghost_hand_client::video_encoder::{
    create_encoder, detect_hardware_acceleration, to_rgb, EncoderInfo, FFmpegEncoder, FfmpegOutcome,
    FfmpegStage, HardwareProbe, ImageEncoder, Packet, VideoEncoder,
};

#[test]
fn test_image_encoder() -> Result<()> {
    let mut encoder = ImageEncoder::new(1920, 1080, 30)?;

    let frame = Frame {
        width: 1920,
        height: 1080,
        data: vec![0u8; 1920 * 1080 * 4],
        format: FrameFormat::RGBA,
        timestamp: 0,
    };

    let encoded = encoder.encode(&frame)?;
    assert!(!encoded.data.is_empty());
    assert_eq!(encoded.width, 1920);
    assert_eq!(encoded.height, 1080);

    Ok(())
}

#[test]
fn test_video_codec_variants() {
    let codecs = vec![
        VideoCodec::H264,
        VideoCodec::H265,
        VideoCodec::VP8,
        VideoCodec::VP9,
        VideoCodec::AV1,
    ];

    for codec in codecs {
        assert!(matches!(
            codec,
            VideoCodec::H264
                | VideoCodec::H265
                | VideoCodec::VP8
                | VideoCodec::VP9
                | VideoCodec::AV1
        ));
    }
}

#[test]
fn test_encoder_compression() {
    let mut encoder = ImageEncoder::new(100, 100, 30).unwrap();

    let mut data = Vec::with_capacity(100 * 100 * 4);
    for _ in 0..(100 * 100) {
        data.extend_from_slice(&[255, 0, 0, 255]);
    }

    let frame = Frame { width: 100, height: 100, data, format: FrameFormat::RGBA, timestamp: 1000 };

    let encoded = encoder.encode(&frame).unwrap();

    assert!(encoded.data.len() < frame.data.len());
    assert_eq!(encoded.timestamp, 1000);
}

#[test]
fn test_encoder_info() {
    let info = EncoderInfo {
        codec: VideoCodec::H264,
        width: 1280,
        height: 720,
        framerate: 30,
        bitrate: 3000,
        hardware_accelerated: false,
    };

    assert_eq!(info.width, 1280);
    assert_eq!(info.height, 720);
    assert!(!info.hardware_accelerated);
}

#[test]
fn test_create_encoder_default() {
    let result = create_encoder(VideoCodec::H264, 640, 480, 30, 2000);

    assert!(result.is_ok());

    let encoder = result.unwrap();
    let info = encoder.get_info();

    assert_eq!(info.width, 640);
    assert_eq!(info.height, 480);
    assert_eq!(info.framerate, 30);
}

#[test]
fn test_detect_hardware_acceleration() {
    let available = detect_hardware_acceleration(HardwareProbe {
        nvidia: false,
        direct_rendering: false,
        video_toolbox: false,
    });

    assert!(available.is_empty() || !available.is_empty());
}

#[test]
fn test_encoder_consistency() -> Result<()> {
    let mut encoder = create_encoder(VideoCodec::H264, 320, 240, 15, 1000)?;

    let mut data = Vec::with_capacity(320 * 240 * 4);
    for y in 0..240 {
        for x in 0..320 {
            let r = ((x * 255) / 320) as u8;
            let g = ((y * 255) / 240) as u8;
            let b = 128u8;
            let a = 255u8;
            data.extend_from_slice(&[r, g, b, a]);
        }
    }

    let frame = Frame { width: 320, height: 240, data, format: FrameFormat::RGBA, timestamp: 0 };

    for i in 0..5 {
        let mut test_frame = frame.clone();
        test_frame.timestamp = i;

        let encoded = encoder.encode(&test_frame)?;

        assert!(!encoded.data.is_empty());
        assert_eq!(encoded.timestamp, i);
        assert_eq!(encoded.width, 320);
        assert_eq!(encoded.height, 240);
    }

    Ok(())
}

fn encoding_message(error: GhostHandError) -> String {
    match error {
        GhostHandError::VideoEncoding(message) => message,
        other => panic!("expected an encoding error, got {:?}", other),
    }
}

#[test]
fn frames_are_made_ready_by_dropping_alpha_and_ordering_colors() -> Result<()> {
    let rgba = Frame {
        width: 2,
        height: 1,
        data: vec![1, 2, 3, 255, 4, 5, 6, 128],
        format: FrameFormat::RGBA,
        timestamp: 0,
    };
    assert_eq!(to_rgb(&rgba)?, vec![1, 2, 3, 4, 5, 6]);
    let bgra = Frame { format: FrameFormat::BGRA, ..rgba.clone() };
    assert_eq!(to_rgb(&bgra)?, vec![3, 2, 1, 6, 5, 4]);
    // Bytes beyond the size of the frame are passed over.
    let longer = Frame { data: vec![1, 2, 3, 255, 4, 5, 6, 128, 9, 9], ..rgba.clone() };
    assert_eq!(to_rgb(&longer)?, vec![1, 2, 3, 4, 5, 6]);
    let empty = Frame { width: 0, height: 5, data: vec![], ..rgba.clone() };
    assert_eq!(to_rgb(&empty)?, Vec::<u8>::new());

    let short = Frame { data: vec![1, 2, 3, 255, 4, 5, 6], ..rgba.clone() };
    assert_eq!(encoding_message(to_rgb(&short).unwrap_err()), "Failed to create RGBA image");
    let rgb = Frame { format: FrameFormat::RGB, ..rgba.clone() };
    assert_eq!(encoding_message(to_rgb(&rgb).unwrap_err()), "Unsupported frame format");
    let bgr = Frame { format: FrameFormat::BGR, ..rgba };
    assert_eq!(encoding_message(to_rgb(&bgr).unwrap_err()), "Unsupported frame format");
    Ok(())
}

#[test]
fn image_encoder_writes_jpeg_and_reports_what_it_cannot_compress() -> Result<()> {
    let mut encoder = ImageEncoder::new(4, 4, 30)?;
    let frame = Frame {
        width: 4,
        height: 4,
        data: vec![200u8; 64],
        format: FrameFormat::BGRA,
        timestamp: 77,
    };
    let encoded = encoder.encode(&frame)?;
    // A JPEG opens with the marker FF D8 and closes with FF D9.
    assert_eq!(&encoded.data[..2], &[0xff, 0xd8]);
    assert_eq!(&encoded.data[encoded.data.len() - 2..], &[0xff, 0xd9]);
    assert!(encoded.is_keyframe);
    assert_eq!(encoded.timestamp, 77);
    assert_eq!((encoded.width, encoded.height), (4, 4));

    let unsupported = Frame { format: FrameFormat::RGB, ..frame.clone() };
    assert!(encoder.encode(&unsupported).is_err());
    // A JPEG is at most 65535 pixels wide.
    let too_wide = Frame { width: 70000, height: 1, data: vec![0u8; 280000], ..frame };
    let error = encoder.encode(&too_wide).unwrap_err();
    assert!(encoding_message(error).starts_with("Failed to encode JPEG: "));

    let info = encoder.get_info();
    assert_eq!(info.codec, VideoCodec::H264);
    assert_eq!(info.bitrate, 0);
    assert!(!info.hardware_accelerated);
    Ok(())
}

#[test]
fn lower_quality_makes_smaller_images() -> Result<()> {
    let mut data = Vec::with_capacity(64 * 64 * 4);
    for y in 0..64u32 {
        for x in 0..64u32 {
            data.extend_from_slice(&[(x * 4) as u8, (y * 4) as u8, ((x * y) % 256) as u8, 255]);
        }
    }
    let frame = Frame { width: 64, height: 64, data, format: FrameFormat::RGBA, timestamp: 0 };
    let mut encoder = ImageEncoder::new(64, 64, 30)?;
    let fine = encoder.encode(&frame)?;
    encoder.set_quality(10);
    let coarse = encoder.encode(&frame)?;
    assert!(coarse.data.len() < fine.data.len());
    assert_eq!(encoder.get_info().width, 64);
    Ok(())
}

#[test]
fn hardware_probe_is_listed_in_order() {
    let all = detect_hardware_acceleration(HardwareProbe {
        nvidia: true,
        direct_rendering: true,
        video_toolbox: true,
    });
    assert_eq!(all, vec!["NVENC (NVIDIA)", "QSV (Intel Quick Sync)", "VideoToolbox (Apple)"]);
    let one = detect_hardware_acceleration(HardwareProbe {
        nvidia: false,
        direct_rendering: true,
        video_toolbox: false,
    });
    assert_eq!(one, vec!["QSV (Intel Quick Sync)"]);
}

#[test]
fn codec_library_encoder_plans_and_assembles() -> Result<()> {
    let settings = FFmpegEncoder::plan(VideoCodec::H264, 1280, 720, 30, 4000);
    assert_eq!(settings.codec_name, "libx264");
    assert_eq!(settings.time_base, (1, 30));
    assert_eq!(settings.frame_rate, (30, 1));
    assert_eq!(settings.bit_rate, 4_000_000);
    assert!(settings.low_latency);
    let settings = FFmpegEncoder::plan(VideoCodec::VP9, 1, 1, u32::MAX, u32::MAX);
    assert_eq!(settings.codec_name, "libvpx-vp9");
    assert_eq!(settings.time_base, (1, i32::MAX));
    assert_eq!(settings.bit_rate, 4_294_967_295_000);
    assert!(!settings.low_latency);
    assert_eq!(FFmpegEncoder::codec_name(VideoCodec::H265), "libx265");
    assert_eq!(FFmpegEncoder::codec_name(VideoCodec::VP8), "libvpx");
    assert_eq!(FFmpegEncoder::codec_name(VideoCodec::AV1), "libaom-av1");

    let failed = FFmpegEncoder::new(
        VideoCodec::AV1,
        1,
        1,
        1,
        1,
        Some((FfmpegStage::FindCodec, String::new())),
    );
    assert_eq!(encoding_message(failed.unwrap_err()), "Codec libaom-av1 non trouvé");
    let failed =
        FFmpegEncoder::new(VideoCodec::H264, 1, 1, 1, 1, Some((FfmpegStage::Tune, "no".into())));
    assert_eq!(encoding_message(failed.unwrap_err()), "Erreur tune: no");

    let mut encoder = FFmpegEncoder::new(VideoCodec::H264, 2, 2, 30, 100, None)?;
    let frame =
        Frame { width: 2, height: 2, data: vec![0; 16], format: FrameFormat::RGBA, timestamp: 5 };
    assert_eq!(encoder.next_pts(), 0);
    let packets = vec![
        Packet { data: vec![1, 2], is_key: true },
        Packet { data: vec![3], is_key: false },
    ];
    let encoded = encoder.encode(&frame, FfmpegOutcome::Packets(packets))?;
    assert_eq!(encoded.data, vec![1, 2, 3]);
    assert!(!encoded.is_keyframe);
    assert_eq!(encoded.timestamp, 5);
    assert_eq!(encoder.next_pts(), 1);

    let nothing = encoder.encode(&frame, FfmpegOutcome::Packets(Vec::new()))?;
    assert_eq!(nothing.data, vec![0u8; 100]);
    assert!(!nothing.is_keyframe);
    assert_eq!(encoder.next_pts(), 2);

    let error = encoder.encode(&frame, FfmpegOutcome::ScalingFailed("bad".into())).unwrap_err();
    assert_eq!(encoding_message(error), "Erreur de scaling: bad");
    assert_eq!(encoder.next_pts(), 2);
    let error = encoder.encode(&frame, FfmpegOutcome::SendFailed("full".into())).unwrap_err();
    assert_eq!(encoding_message(error), "Erreur d'envoi de frame: full");
    assert_eq!(encoder.next_pts(), 3);
    Ok(())
}
