use myowndesk::capture::CapturedFrame;
use myowndesk::color::YuvPicture;
use myowndesk::decoder::{
    create_best_decoder, DecodeError, DecodePlan, DecoderSetUps, OpenH264Decoder, VideoDecoder,
};
use myowndesk::encoder::{
    create_best_encoder, encoder_settings, EncodeError, OpenH264Encoder, RateControl, RawFrame,
    RawFrameType, Usage, VideoEncoder,
};
use myowndesk::message::FrameType;

fn make_test_frame(width: u32, height: u32) -> CapturedFrame {
    let size = (width * height * 4) as usize;
    let mut cpu_buffer = vec![128u8; size];
    for y in 0..height {
        for x in 0..width {
            let idx = ((y * width + x) * 4) as usize;
            cpu_buffer[idx] = (x % 256) as u8;
            cpu_buffer[idx + 1] = (y % 256) as u8;
            cpu_buffer[idx + 2] = 128;
            cpu_buffer[idx + 3] = 255;
        }
    }
    CapturedFrame { cpu_buffer, display_index: 0, timestamp: 0, width, height }
}

fn encode_one_frame(encoder: &mut OpenH264Encoder, frame: &CapturedFrame) -> Vec<u8> {
    let encoded = encoder.encode(frame).unwrap();
    assert!(!encoded.is_empty(), "编码应产生输出");
    encoded[0].nal_units.clone()
}

#[test]
fn test_encoder_create() {
    let encoder = OpenH264Encoder::new(1920, 1080, 60);
    assert!(encoder.is_ok(), "编码器初始化应成功");
}

#[test]
fn test_encode_keyframe() {
    let mut encoder = OpenH264Encoder::new(64, 64, 30).unwrap();
    let frame = make_test_frame(64, 64);
    let result = encoder.encode(&frame).unwrap();
    assert!(!result.is_empty(), "编码应产生输出");
    assert_eq!(result[0].frame_type, FrameType::Keyframe, "第一帧应为关键帧");
}

#[test]
fn test_encode_delta() {
    let mut encoder = OpenH264Encoder::new(64, 64, 30).unwrap();
    let frame = make_test_frame(64, 64);
    let result1 = encoder.encode(&frame).unwrap();
    assert_eq!(result1[0].frame_type, FrameType::Keyframe);
    let result2 = encoder.encode(&frame).unwrap();
    assert!(!result2.is_empty());
    assert_eq!(result2[0].frame_type, FrameType::Delta);
}

#[test]
fn test_force_keyframe() {
    let mut encoder = OpenH264Encoder::new(64, 64, 30).unwrap();
    let frame = make_test_frame(64, 64);
    encoder.encode(&frame).unwrap();
    encoder.encode(&frame).unwrap();
    encoder.encode(&frame).unwrap();
    encoder.request_keyframe();
    let result = encoder.encode(&frame).unwrap();
    assert_eq!(result[0].frame_type, FrameType::Keyframe, "force_keyframe 后应输出关键帧");
}

#[test]
fn test_frame_metadata() {
    let mut encoder = OpenH264Encoder::new(128, 64, 30).unwrap();
    let frame = make_test_frame(128, 64);
    let results = encoder.encode(&frame).unwrap();
    assert!(!results.is_empty());
    assert_eq!(results[0].width, 128);
    assert_eq!(results[0].height, 64);
    assert_eq!(results[0].display_index, 0);
}

#[test]
fn test_encoded_data_valid() {
    let mut encoder = OpenH264Encoder::new(64, 64, 30).unwrap();
    let frame = make_test_frame(64, 64);
    let results = encoder.encode(&frame).unwrap();
    assert!(!results.is_empty());
    assert!(!results[0].nal_units.is_empty(), "编码数据不应为空");
    assert!(results[0].nal_units.len() >= 4, "NAL 单元至少应有 4 字节");
    assert_eq!(
        &results[0].nal_units[0..4],
        &[0x00, 0x00, 0x00, 0x01],
        "编码数据应以 H.264 起始码开头"
    );
}

#[test]
fn test_bgra_to_yuv420p_encodes_ok() {
    let width = 64u32;
    let height = 64u32;
    let mut encoder = OpenH264Encoder::new(width, height, 30).unwrap();
    let frame = make_test_frame(width, height);
    let result = encoder.encode(&frame).unwrap();
    assert!(!result.is_empty());
}

#[test]
fn test_create_best_encoder() {
    let encoder = create_best_encoder(1920, 1080, 60);
    assert!(encoder.is_ok());
}

#[test]
fn an_encoder_is_set_up_for_the_screen() {
    let s = encoder_settings(60);
    assert_eq!(s.usage, Usage::Screen);
    assert_eq!(s.rate_control, RateControl::Bitrate);
    assert_eq!(s.bitrate_bps, 15_000_000);
    assert_eq!(s.max_frame_rate, 60);
    assert_eq!(s.group_len, 60);
    assert_eq!(s.max_slice_len, 1200);
    assert_eq!(s.threads, 4);
}

#[test]
fn times_follow_the_frame_rate() {
    let mut encoder = OpenH264Encoder::new(64, 64, 30).unwrap();
    let frame = make_test_frame(64, 64);
    assert_eq!(encoder.encode(&frame).unwrap()[0].pts, 33);
    assert_eq!(encoder.encode(&frame).unwrap()[0].pts, 66);
    encoder.request_keyframe();
    assert_eq!(encoder.encode(&frame).unwrap()[0].pts, 100);
}

#[test]
fn the_codecs_answer_becomes_a_frame() {
    let mut encoder = OpenH264Encoder::new(64, 64, 25).unwrap();
    let mut frame = make_test_frame(64, 64);
    frame.display_index = 1;
    for (kind, frame_type) in [
        (RawFrameType::Idr, FrameType::Keyframe),
        (RawFrameType::I, FrameType::Keyframe),
        (RawFrameType::P, FrameType::Delta),
        (RawFrameType::Mixed, FrameType::Delta),
    ] {
        let frames = encoder.conclude(&frame, RawFrame { kind, data: vec![1, 2, 3] });
        assert_eq!(frames.len(), 1);
        assert_eq!(frames[0].frame_type, frame_type);
        assert_eq!(frames[0].nal_units, vec![1, 2, 3]);
        assert_eq!(frames[0].display_index, 1);
        assert_eq!(frames[0].pts, 0);
    }
    for kind in [RawFrameType::Skip, RawFrameType::Invalid] {
        assert!(encoder.conclude(&frame, RawFrame { kind, data: vec![1] }).is_empty());
    }
    let empty = RawFrame { kind: RawFrameType::Idr, data: Vec::new() };
    assert!(encoder.conclude(&frame, empty).is_empty());
}

#[test]
fn only_whole_frames_can_be_encoded() {
    let encoder = OpenH264Encoder::new(64, 64, 30).unwrap();
    assert!(encoder.can_encode(&make_test_frame(64, 64)));
    assert!(!encoder.can_encode(&make_test_frame(63, 64)));
    assert!(!encoder.can_encode(&make_test_frame(64, 63)));
    let mut short = make_test_frame(64, 64);
    short.cpu_buffer.pop();
    assert!(encoder.can_encode(&short));
    short.cpu_buffer.pop();
    assert!(!encoder.can_encode(&short));
    let timeless = OpenH264Encoder::new(64, 64, 0).unwrap();
    assert!(!timeless.can_encode(&make_test_frame(64, 64)));
}

#[test]
fn a_frame_that_is_too_large_is_refused() {
    let mut encoder = OpenH264Encoder::new(64, 64, 30).unwrap();
    match encoder.encode(&make_test_frame(3842, 2)) {
        Err(EncodeError::Encode { frame, .. }) => assert_eq!(frame, 1),
        _ => panic!("no such picture can be encoded"),
    }
}

#[test]
fn test_create_decoder() {
    let decoder = create_best_decoder();
    assert!(decoder.is_ok(), "解码器初始化应成功: {:?}", decoder.err());
}

#[test]
fn test_decode_keyframe() {
    let mut encoder = OpenH264Encoder::new(64, 64, 30).unwrap();
    let frame = make_test_frame(64, 64);
    let nal_data = encode_one_frame(&mut encoder, &frame);
    assert!(OpenH264Decoder::contains_idr(&nal_data), "第一帧应为 IDR");
    let mut decoder = OpenH264Decoder::new().unwrap();
    let result = decoder.decode(&nal_data).unwrap();
    assert!(!result.is_empty(), "IDR 解码应产生输出");
    assert_eq!(result[0].width, 64);
    assert_eq!(result[0].height, 64);
    assert_eq!(result[0].rgb_data.len(), 64 * 64 * 3);
    assert_eq!(result[0].frame_type, FrameType::Keyframe);
    assert_eq!(result[0].display_index, 0);
}

#[test]
fn test_decode_delta_after_keyframe() {
    let mut encoder = OpenH264Encoder::new(64, 64, 30).unwrap();
    let frame = make_test_frame(64, 64);
    let idr_nal = encode_one_frame(&mut encoder, &frame);
    let delta_nal = encode_one_frame(&mut encoder, &frame);
    let mut decoder = OpenH264Decoder::new().unwrap();
    assert!(!decoder.decode(&idr_nal).unwrap().is_empty());
    let r2 = decoder.decode(&delta_nal).unwrap();
    assert!(!r2.is_empty(), "delta in IDR 后应产出帧");
    assert_eq!(r2[0].frame_type, FrameType::Delta);
}

#[test]
fn test_decode_delta_skipped_before_init() {
    let mut encoder = OpenH264Encoder::new(64, 64, 30).unwrap();
    let frame = make_test_frame(64, 64);
    let _idr_nal = encode_one_frame(&mut encoder, &frame);
    let delta_nal = encode_one_frame(&mut encoder, &frame);
    let mut decoder = OpenH264Decoder::new().unwrap();
    let result = decoder.decode(&delta_nal).unwrap();
    assert!(result.is_empty(), "首帧 delta 应被丢弃");
}

#[test]
fn test_decode_empty() {
    let mut decoder = OpenH264Decoder::new().unwrap();
    let result = decoder.decode(&[]).unwrap();
    assert!(result.is_empty());
}

#[test]
fn test_contains_idr_detection() {
    // Single IDR NAL unit
    let idr = vec![0x00, 0x00, 0x00, 0x01, 0x65, 0x00];
    assert!(OpenH264Decoder::contains_idr(&idr));

    // Single P-slice
    let p = vec![0x00, 0x00, 0x00, 0x01, 0x41, 0x00];
    assert!(!OpenH264Decoder::contains_idr(&p));

    // Single SPS
    let sps = vec![0x00, 0x00, 0x00, 0x01, 0x67, 0x00];
    assert!(!OpenH264Decoder::contains_idr(&sps));

    // SPS + PPS + IDR (typical first encoded frame)
    let multi = vec![
        0x00, 0x00, 0x00, 0x01, 0x67, 0x42, 0x00, 0x1E, // SPS
        0x00, 0x00, 0x00, 0x01, 0x68, 0xCE, 0x38, 0x80, // PPS
        0x00, 0x00, 0x00, 0x01, 0x65, 0x88, 0x84, 0x00, // IDR
    ];
    assert!(OpenH264Decoder::contains_idr(&multi), "应检测到多 NAL 数据中的 IDR");

    // Empty / short
    assert!(!OpenH264Decoder::contains_idr(&[0x00]));
    assert!(!OpenH264Decoder::contains_idr(&[]));
}

#[test]
fn a_grey_screen_comes_back_grey() {
    let frame = CapturedFrame {
        cpu_buffer: vec![100u8; 64 * 64 * 4],
        display_index: 0,
        timestamp: 0,
        width: 64,
        height: 64,
    };
    let mut encoder = OpenH264Encoder::new(64, 64, 30).unwrap();
    let data = encode_one_frame(&mut encoder, &frame);
    let mut decoder = OpenH264Decoder::new().unwrap();
    let decoded = decoder.decode(&data).unwrap();
    assert_eq!(decoded.len(), 1);
    for byte in &decoded[0].rgb_data {
        assert!((*byte as i32 - 100).abs() <= 4, "{}", byte);
    }
}

#[test]
fn after_a_failure_only_a_keyframe_is_decoded() {
    let mut encoder = OpenH264Encoder::new(64, 64, 30).unwrap();
    let frame = make_test_frame(64, 64);
    let idr = encode_one_frame(&mut encoder, &frame);
    let delta = encode_one_frame(&mut encoder, &frame);
    let mut decoder = OpenH264Decoder::new().unwrap();
    assert_eq!(decoder.decode(&idr).unwrap().len(), 1);
    let bad = YuvPicture {
        y: vec![0; 3],
        u: vec![0],
        v: vec![0],
        width: 2,
        height: 2,
        y_stride: 2,
        uv_stride: 1,
    };
    assert!(matches!(decoder.conclude(false, Some(bad)), Err(DecodeError::BadPicture)));
    assert!(decoder.decode(&delta).unwrap().is_empty());
    assert_eq!(decoder.decode(&idr).unwrap().len(), 1);
    assert_eq!(decoder.decode(&delta).unwrap().len(), 1);
}

#[test]
fn data_that_cannot_be_decoded_is_an_error() {
    let mut encoder = OpenH264Encoder::new(64, 64, 30).unwrap();
    let frame = make_test_frame(64, 64);
    let idr = encode_one_frame(&mut encoder, &frame);
    let mut decoder = OpenH264Decoder::new().unwrap();
    let garbage = vec![0, 0, 0, 1, 0x65, 0xff, 0xff, 0xff, 0xff];
    assert!(matches!(decoder.decode(&garbage), Err(DecodeError::Decode(_))));
    assert_eq!(decoder.decode(&idr).unwrap().len(), 1);
}

#[test]
fn a_decoder_takes_the_codecs_answer() {
    let mut decoder = OpenH264Decoder::new().unwrap();
    assert!(decoder.conclude(true, None).unwrap().is_empty());
    let picture = YuvPicture {
        y: vec![128; 4],
        u: vec![128],
        v: vec![128],
        width: 2,
        height: 2,
        y_stride: 2,
        uv_stride: 1,
    };
    let frames = decoder.conclude(true, Some(picture)).unwrap();
    assert_eq!(frames.len(), 1);
    assert_eq!(frames[0].rgb_data, vec![128; 12]);
    assert_eq!((frames[0].width, frames[0].height), (2, 2));
    assert_eq!(frames[0].frame_type, FrameType::Keyframe);
}

#[test]
fn a_decoder_that_holds_nothing_flushes_nothing() {
    let mut decoder = OpenH264Decoder::new().unwrap();
    assert!(decoder.flush().unwrap().is_empty());
}

#[test]
fn pictures_are_converted_in_order() {
    let picture = |luma: u8| YuvPicture {
        y: vec![luma],
        u: vec![128],
        v: vec![128],
        width: 1,
        height: 1,
        y_stride: 1,
        uv_stride: 1,
    };
    let frames = OpenH264Decoder::convert_all(&vec![picture(10), picture(20)]).unwrap();
    assert_eq!(frames[0].rgb_data, vec![10; 3]);
    assert_eq!(frames[1].rgb_data, vec![20; 3]);
    assert_eq!(frames[1].frame_type, FrameType::Delta);
    let mut bad = picture(30);
    bad.v.clear();
    assert!(matches!(
        OpenH264Decoder::convert_all(&vec![picture(10), bad]),
        Err(DecodeError::BadPicture)
    ));
}

#[test]
fn the_codec_is_told_what_a_frame_needs() {
    let mut encoder = OpenH264Encoder::new(2, 2, 30).unwrap();
    let frame = CapturedFrame {
        cpu_buffer: vec![100; 16],
        display_index: 0,
        timestamp: 0,
        width: 2,
        height: 2,
    };
    let call = encoder.prepare(&frame);
    assert!(call.renew.is_none());
    assert!(!call.force_intra);
    assert_eq!(call.picture, vec![100, 100, 100, 100, 128, 128]);
    encoder.request_keyframe();
    let call = encoder.prepare(&frame);
    assert_eq!(call.renew, Some(encoder_settings(30)));
    assert!(!call.force_intra);
    assert!(encoder.prepare(&frame).renew.is_none());
}

#[test]
fn data_is_dropped_until_a_keyframe_comes() {
    let idr = vec![0, 0, 0, 1, 0x65, 0x11];
    let delta = vec![0, 0, 0, 1, 0x41, 0x11];
    let mut decoder = OpenH264Decoder::new().unwrap();
    assert_eq!(decoder.plan(&[]), DecodePlan::Drop);
    assert_eq!(decoder.plan(&delta), DecodePlan::Drop);
    assert_eq!(decoder.plan(&idr), DecodePlan::Feed { keyframe: true, renew: false });
    let picture = YuvPicture {
        y: vec![128; 4],
        u: vec![128],
        v: vec![128],
        width: 2,
        height: 2,
        y_stride: 2,
        uv_stride: 1,
    };
    decoder.conclude(true, Some(picture)).unwrap();
    assert_eq!(decoder.plan(&delta), DecodePlan::Feed { keyframe: false, renew: false });
    let bad = YuvPicture {
        y: Vec::new(),
        u: Vec::new(),
        v: Vec::new(),
        width: 2,
        height: 2,
        y_stride: 2,
        uv_stride: 1,
    };
    assert!(decoder.conclude(false, Some(bad)).is_err());
    assert_eq!(decoder.plan(&delta), DecodePlan::Drop);
    assert_eq!(decoder.plan(&idr), DecodePlan::Feed { keyframe: true, renew: true });
}

#[test]
fn a_decoder_needs_a_codec() {
    let error = openh264::Error::msg("no codec");
    let text = error.to_string();
    match OpenH264Decoder::set_up(Err(error), DecoderSetUps::new()) {
        Err(DecodeError::Create(e)) => assert_eq!(e.to_string(), text),
        _ => panic!("期望 Create"),
    }
}

#[test]
fn without_a_new_codec_the_old_one_stays() {
    let frame = make_test_frame(64, 64);
    let mut encoder = OpenH264Encoder::new(64, 64, 30).unwrap();
    let idr = encode_one_frame(&mut encoder, &frame);
    match encoder.renew(Err(openh264::Error::msg("no encoder"))) {
        Err(EncodeError::Create(e)) => assert!(e.to_string().contains("no encoder")),
        _ => panic!("期望 Create"),
    }
    assert_eq!(encoder.encode(&frame).unwrap()[0].frame_type, FrameType::Delta);
    let mut decoder = OpenH264Decoder::new().unwrap();
    assert_eq!(decoder.decode(&idr).unwrap().len(), 1);
    match decoder.renew(Err(openh264::Error::msg("no decoder"))) {
        Err(DecodeError::Create(e)) => assert!(e.to_string().contains("no decoder")),
        _ => panic!("期望 Create"),
    }
    let delta = vec![0, 0, 0, 1, 0x41, 0x11];
    assert_eq!(decoder.plan(&delta), DecodePlan::Feed { keyframe: false, renew: false });
}

#[test]
fn the_best_encoder_goes_on_encoding() {
    let frame = make_test_frame(64, 64);
    let mut encoder = create_best_encoder(64, 64, 30).unwrap();
    assert_eq!(encoder.encode(&frame).unwrap()[0].pts, 33);
    assert_eq!(encoder.encode(&frame).unwrap()[0].frame_type, FrameType::Delta);
    encoder.request_keyframe();
    let frames = encoder.encode(&frame).unwrap();
    assert_eq!(frames[0].frame_type, FrameType::Keyframe);
    assert_eq!(frames[0].pts, 100);
}
