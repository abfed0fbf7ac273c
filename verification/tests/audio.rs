use xiaoxin_esp32::audio::capture::{capture_bytes, CaptureEncoder, FrameOutcome};
use xiaoxin_esp32::audio::opus::decoder::{DecodeError, DecoderError, OpusAudioDecoder};
use xiaoxin_esp32::audio::opus::encoder::{EncoderError, OpusAudioEncoder};
use xiaoxin_esp32::audio::p3::{split_records, P3Error};
use xiaoxin_esp32::audio::pcm::{chunk_bounds, mono_to_stereo, output_bytes, OUTPUT_CHUNK_SIZE};
use xiaoxin_esp32::audio::playback::PlaybackDecoder;
use xiaoxin_esp32::audio::processor::afe_audio_processor::{
    aec_action, feed_size, input_format, AecAction, FetchOutcome, ProcessorState, VadState,
};
use xiaoxin_esp32::audio::processor::audio_processor::AudioProcessor;
use xiaoxin_esp32::audio::processor::no_audio_processor::NoAudioProcessor;
use xiaoxin_esp32::audio::queue::BoundedPacketQueue;
use xiaoxin_esp32::audio::{
    AudioStreamPacket, AUDIO_QUEUE_WINDOW_MS, MAX_AUDIO_PACKETS_IN_QUEUE, OPUS_FRAME_DURATION_MS,
};
use xiaoxin_esp32::common::converter::{bytes_to_i16_slice, i16_slice_to_bytes, ConvertError};
use xiaoxin_esp32::common::enums::DeviceState;
use xiaoxin_esp32::common::event::XzEvent;

#[test]
fn queue_capacity_is_window_over_frame() {
    assert_eq!(AUDIO_QUEUE_WINDOW_MS / OPUS_FRAME_DURATION_MS, MAX_AUDIO_PACKETS_IN_QUEUE);
    assert_eq!(MAX_AUDIO_PACKETS_IN_QUEUE, 40);
}

#[test]
fn packet_clone_keeps_everything() {
    let packet = AudioStreamPacket {
        sample_rate: 16000,
        frame_duration: 60,
        timestamp: 7,
        payload: vec![1, 2, 3],
    };
    let copy = packet.clone();
    assert_eq!(copy.sample_rate, 16000);
    assert_eq!(copy.frame_duration, 60);
    assert_eq!(copy.timestamp, 7);
    assert_eq!(copy.payload, vec![1, 2, 3]);
}

#[test]
fn bytes_become_little_endian_samples() {
    assert_eq!(bytes_to_i16_slice(&[]), Ok(vec![]));
    assert_eq!(bytes_to_i16_slice(&[0x01, 0x00, 0xFF, 0xFF]), Ok(vec![1, -1]));
    assert_eq!(bytes_to_i16_slice(&[0x34, 0x12]), Ok(vec![0x1234]));
    assert_eq!(bytes_to_i16_slice(&[0x00, 0x80, 0xFF, 0x7F]), Ok(vec![i16::MIN, i16::MAX]));
    assert_eq!(bytes_to_i16_slice(&[1, 2, 3]), Err(ConvertError::OddLength));
    assert_eq!(bytes_to_i16_slice(&[1]), Err(ConvertError::OddLength));
}

#[test]
fn samples_become_bytes_and_back() {
    let samples = vec![0i16, 1, -1, 0x1234, i16::MIN, i16::MAX, -2];
    let bytes = i16_slice_to_bytes(&samples);
    assert_eq!(
        bytes,
        vec![0, 0, 1, 0, 0xFF, 0xFF, 0x34, 0x12, 0x00, 0x80, 0xFF, 0x7F, 0xFE, 0xFF]
    );
    assert_eq!(bytes_to_i16_slice(&bytes), Ok(samples));
}

#[test]
fn conversion_agrees_with_std() {
    let mut v: i32 = i16::MIN as i32;
    while v <= i16::MAX as i32 {
        let s = v as i16;
        assert_eq!(i16_slice_to_bytes(&[s]), s.to_le_bytes().to_vec());
        assert_eq!(bytes_to_i16_slice(&s.to_le_bytes()), Ok(vec![s]));
        v += 257;
    }
}

#[test]
fn upmix_duplicates_every_sample() {
    assert_eq!(mono_to_stereo(&[]), Vec::<i16>::new());
    assert_eq!(mono_to_stereo(&[5]), vec![5, 5]);
    let mono = vec![1i16, -2, 3, i16::MIN, i16::MAX];
    let stereo = mono_to_stereo(&mono);
    assert_eq!(stereo.len(), 2 * mono.len());
    for i in 0..mono.len() {
        assert_eq!(stereo[2 * i], mono[i]);
        assert_eq!(stereo[2 * i + 1], mono[i]);
    }
    assert_eq!(stereo, vec![1, 1, -2, -2, 3, 3, i16::MIN, i16::MIN, i16::MAX, i16::MAX]);
}

#[test]
fn output_bytes_upmix_only_mono_to_stereo() {
    assert_eq!(output_bytes(&[1, -1], 1, 2), vec![1, 0, 1, 0, 0xFF, 0xFF, 0xFF, 0xFF]);
    assert_eq!(output_bytes(&[1, -1], 1, 1), vec![1, 0, 0xFF, 0xFF]);
    assert_eq!(output_bytes(&[1, -1], 2, 2), vec![1, 0, 0xFF, 0xFF]);
    assert_eq!(output_bytes(&[1, -1], 2, 1), vec![1, 0, 0xFF, 0xFF]);
}

#[test]
fn chunks_tile_the_buffer() {
    assert_eq!(chunk_bounds(0, 4096), vec![]);
    assert_eq!(chunk_bounds(1, 4096), vec![(0, 1)]);
    assert_eq!(chunk_bounds(4096, 4096), vec![(0, 4096)]);
    assert_eq!(chunk_bounds(4097, 4096), vec![(0, 4096), (4096, 4097)]);
    assert_eq!(chunk_bounds(10, 3), vec![(0, 3), (3, 6), (6, 9), (9, 10)]);
    assert_eq!(chunk_bounds(9, 3), vec![(0, 3), (3, 6), (6, 9)]);
    assert_eq!(chunk_bounds(usize::MAX, usize::MAX), vec![(0, usize::MAX)]);
    assert_eq!(chunk_bounds(5, 1).len(), 5);
}

#[test]
fn container_splits_into_records() {
    let data = [0, 0, 0, 2, 0xAA, 0xBB, 9, 9, 0, 0, 0, 0, 0, 1, 0xCC];
    assert_eq!(split_records(&data), Ok(vec![vec![0xAA, 0xBB], vec![], vec![0xCC]]));
    let mut long = vec![0u8, 0, 1, 4];
    long.extend(std::iter::repeat(7u8).take(260));
    assert_eq!(split_records(&long), Ok(vec![vec![7u8; 260]]));
    assert_eq!(split_records(&[0, 0, 0, 0]), Ok(vec![vec![]]));
}

#[test]
fn container_rejects_truncated_data() {
    assert_eq!(split_records(&[]), Err(P3Error::TruncatedHeader));
    assert_eq!(split_records(&[0, 0, 0]), Err(P3Error::TruncatedHeader));
    assert_eq!(split_records(&[0, 0, 0, 1]), Err(P3Error::TruncatedPayload));
    assert_eq!(split_records(&[0, 0, 0, 1, 5, 0, 0]), Err(P3Error::TruncatedHeader));
    assert_eq!(split_records(&[0, 0, 0, 1, 5, 0, 0, 0, 3, 1, 2]), Err(P3Error::TruncatedPayload));
    assert_eq!(split_records(&[0, 0, 0xFF, 0xFF, 1, 2]), Err(P3Error::TruncatedPayload));
}

#[test]
fn encoder_frame_size_formula() {
    assert_eq!(OpusAudioEncoder::new(16000, 1, 60).map(|e| e.frame_size()), Ok(960));
    assert_eq!(OpusAudioEncoder::new(16000, 2, 60).map(|e| e.frame_size()), Ok(1920));
    assert_eq!(OpusAudioEncoder::new(24000, 1, 20).map(|e| e.frame_size()), Ok(480));
    assert_eq!(OpusAudioEncoder::new(16500, 1, 10).map(|e| e.frame_size()), Ok(160));
    assert_eq!(OpusAudioEncoder::new(1000, 1, 1).map(|e| e.frame_size()), Ok(1));
}

#[test]
fn encoder_rejects_unusable_parameters() {
    assert!(matches!(OpusAudioEncoder::new(0, 1, 60), Err(EncoderError::InvalidFrameSize)));
    assert!(matches!(OpusAudioEncoder::new(-16000, 1, 60), Err(EncoderError::InvalidFrameSize)));
    assert!(matches!(OpusAudioEncoder::new(16000, 0, 60), Err(EncoderError::InvalidFrameSize)));
    assert!(matches!(OpusAudioEncoder::new(16000, 1, 0), Err(EncoderError::InvalidFrameSize)));
    assert!(matches!(OpusAudioEncoder::new(16000, -1, -60), Err(EncoderError::InvalidFrameSize)));
    assert!(matches!(OpusAudioEncoder::new(999, 1, 60), Err(EncoderError::InvalidFrameSize)));
    assert!(matches!(
        OpusAudioEncoder::new(i32::MAX, i32::MAX, i32::MAX),
        Err(EncoderError::InvalidFrameSize)
    ));
    assert!(matches!(
        OpusAudioEncoder::new(48000, 2, i32::MAX),
        Err(EncoderError::InvalidFrameSize)
    ));
    assert!(OpusAudioEncoder::new(i32::MAX, 1, 1000).is_ok());
}

#[test]
fn encoder_carries_incomplete_frames() {
    let mut encoder = OpusAudioEncoder::new(1000, 1, 4).unwrap();
    assert_eq!(encoder.frame_size(), 4);
    assert_eq!(encoder.encode(vec![1, 2, 3]), Vec::<Vec<i16>>::new());
    assert_eq!(encoder.buffered(), 3);
    assert_eq!(encoder.encode(vec![4, 5, 6, 7, 8, 9]), vec![vec![1, 2, 3, 4], vec![5, 6, 7, 8]]);
    assert_eq!(encoder.buffered(), 1);
    assert_eq!(encoder.encode(vec![]), Vec::<Vec<i16>>::new());
    assert_eq!(encoder.encode(vec![10, 11, 12]), vec![vec![9, 10, 11, 12]]);
    assert_eq!(encoder.buffered(), 0);
    assert_eq!(encoder.encode(vec![1, 2, 3, 4]), vec![vec![1, 2, 3, 4]]);
}

#[test]
fn decoder_buffer_matches_encoder_frame() {
    let decoder = OpusAudioDecoder::new(16000, 1).unwrap();
    assert_eq!(decoder.max_frame_size(), 960);
    assert_eq!(decoder.buffer_len(), 960);
    assert_eq!(decoder.sample_rate(), 16000);
    assert_eq!(decoder.channels(), 1);
    assert_eq!(decoder.frame_buffer(), vec![0i16; 960]);
    let stereo = OpusAudioDecoder::new(16000, 2).unwrap();
    assert_eq!(stereo.max_frame_size(), 960);
    assert_eq!(stereo.buffer_len(), 1920);
    assert_eq!(stereo.frame_buffer(), vec![0i16; 1920]);
    assert_eq!(OpusAudioDecoder::new(48000, 2).unwrap().max_frame_size(), 2880);
    assert_eq!(OpusAudioDecoder::new(48000, 2).unwrap().buffer_len(), 5760);
    assert_eq!(OpusAudioDecoder::new(16500, 1).unwrap().max_frame_size(), 990);
    for channels in [1, 2] {
        let encoder = OpusAudioEncoder::new(16000, channels, 60).unwrap();
        let decoder = OpusAudioDecoder::new(16000, channels).unwrap();
        assert_eq!(encoder.frame_size(), decoder.buffer_len());
        let frame = decoder.decode(decoder.max_frame_size() as i32, decoder.frame_buffer()).unwrap();
        assert_eq!(frame.len(), encoder.frame_size());
    }
}

#[test]
fn decoder_rejects_unusable_parameters() {
    assert!(matches!(OpusAudioDecoder::new(0, 1), Err(DecoderError::InvalidParameters)));
    assert!(matches!(OpusAudioDecoder::new(16000, 0), Err(DecoderError::InvalidParameters)));
    assert!(matches!(OpusAudioDecoder::new(-1, 1), Err(DecoderError::InvalidParameters)));
    assert!(matches!(
        OpusAudioDecoder::new(i32::MAX / 60 + 1, 1),
        Err(DecoderError::InvalidParameters)
    ));
    assert!(OpusAudioDecoder::new(i32::MAX / 60, 1).is_ok());
    assert!(OpusAudioDecoder::new(i32::MAX / 60, 1000).is_ok());
    assert!(matches!(
        OpusAudioDecoder::new(i32::MAX / 60, 1001),
        Err(DecoderError::InvalidParameters)
    ));
    assert!(matches!(
        OpusAudioDecoder::new(16000, i32::MAX),
        Err(DecoderError::InvalidParameters)
    ));
    assert!(OpusAudioDecoder::new(16000, i32::MAX / 960).is_ok());
    assert!(matches!(
        OpusAudioDecoder::new(16000, i32::MAX / 960 + 1),
        Err(DecoderError::InvalidParameters)
    ));
}

#[test]
fn decoder_returns_the_decoded_samples() {
    let decoder = OpusAudioDecoder::new(16000, 1).unwrap();
    assert_eq!(decoder.decode(-4, vec![0; 960]), Err(DecodeError::Codec(-4)));
    assert_eq!(decoder.decode(0, vec![1, 2]), Ok(vec![]));
    assert_eq!(decoder.decode(1, vec![1, 2]), Ok(vec![1]));
    assert_eq!(decoder.decode(2, vec![1, 2]), Ok(vec![1, 2]));
    assert_eq!(decoder.decode(3, vec![1, 2]), Ok(vec![1, 2]));
    assert_eq!(decoder.decode(i32::MAX, vec![1, 2]), Ok(vec![1, 2]));
    assert_eq!(decoder.decode(320, vec![3; 960]), Ok(vec![3; 320]));
    assert_eq!(decoder.decode(960, vec![3; 960]), Ok(vec![3; 960]));
    let stereo = OpusAudioDecoder::new(16000, 2).unwrap();
    assert_eq!(stereo.decode(320, vec![5; 1920]), Ok(vec![5; 640]));
    assert_eq!(stereo.decode(960, vec![5; 1920]), Ok(vec![5; 1920]));
    assert_eq!(stereo.decode(i32::MAX, vec![5; 4]), Ok(vec![5; 4]));
    assert_eq!(stereo.decode(1, vec![7, 8, 9]), Ok(vec![7, 8]));
    assert_eq!(stereo.decode(-1, vec![5; 4]), Err(DecodeError::Codec(-1)));
}

#[test]
fn passthrough_front_end() {
    let mut processor = NoAudioProcessor::new(16000);
    assert_eq!(processor.sample_rate(), 16000);
    assert_eq!(processor.get_feed_size(), 480);
    assert!(!processor.is_running());
    assert_eq!(processor.feed(&[1, 2, 3]), None);
    processor.initialize();
    processor.start();
    assert!(processor.is_running());
    assert_eq!(processor.feed(&[1, 2, 3]), Some(vec![1, 2, 3]));
    assert_eq!(processor.feed(&[]), Some(vec![]));
    processor.enable_device_aec(true);
    assert!(processor.is_running());
    processor.stop();
    assert!(!processor.is_running());
    assert_eq!(processor.feed(&[4]), None);
    assert_eq!(NoAudioProcessor::new(24000).get_feed_size(), 720);
    assert_eq!(NoAudioProcessor::new(u32::MAX).get_feed_size(), 128849018);
    assert_eq!(NoAudioProcessor::new(33).get_feed_size(), 0);
}

#[test]
fn afe_input_layout() {
    assert_eq!(input_format(2, true), "MR");
    assert_eq!(input_format(4, true), "MMMR");
    assert_eq!(input_format(2, false), "MM");
    assert_eq!(input_format(0, true), "R");
    assert_eq!(input_format(0, false), "");
    assert_eq!(feed_size(256, 2), Some(512));
    assert_eq!(feed_size(usize::MAX, 2), None);
    assert_eq!(aec_action(true, true), AecAction::EnableAec);
    assert_eq!(aec_action(true, false), AecAction::Unsupported);
    assert_eq!(aec_action(false, true), AecAction::EnableVad);
    assert_eq!(aec_action(false, false), AecAction::EnableVad);
}

#[test]
fn afe_reports_changes_of_voice_activity() {
    let mut state = ProcessorState::new();
    assert_eq!(
        state.on_fetch(true, VadState::Speech),
        FetchOutcome { vad_event: None, emit: false }
    );
    state.is_running = true;
    assert_eq!(
        state.on_fetch(false, VadState::Speech),
        FetchOutcome { vad_event: None, emit: false }
    );
    assert!(!state.is_speaking);
    assert_eq!(
        state.on_fetch(true, VadState::Speech),
        FetchOutcome { vad_event: Some(true), emit: true }
    );
    assert!(state.is_speaking);
    assert_eq!(
        state.on_fetch(true, VadState::Speech),
        FetchOutcome { vad_event: None, emit: true }
    );
    assert_eq!(
        state.on_fetch(true, VadState::Unknown),
        FetchOutcome { vad_event: None, emit: true }
    );
    assert!(state.is_speaking);
    assert_eq!(
        state.on_fetch(true, VadState::Silence),
        FetchOutcome { vad_event: Some(false), emit: true }
    );
    assert!(!state.is_speaking);
    assert_eq!(
        state.on_fetch(true, VadState::Silence),
        FetchOutcome { vad_event: None, emit: true }
    );
}

#[test]
fn capture_read_size() {
    assert_eq!(capture_bytes(0), None);
    assert_eq!(capture_bytes(480), Some(960));
    assert_eq!(capture_bytes(usize::MAX), None);
    assert_eq!(capture_bytes(usize::MAX / 2), Some(usize::MAX - 1));
}

#[test]
fn capture_queues_encoded_frames() {
    let mut capture = CaptureEncoder::new(16000, 2, 60).unwrap();
    assert_eq!(capture.frame_size(), 1920);
    assert_eq!(capture.on_output(vec![0; 1919]).len(), 0);
    let frames = capture.on_output(vec![1; 5]);
    assert_eq!(frames.len(), 1);
    assert_eq!(frames[0].len(), 1920);
    assert_eq!(frames[0][1918], 0);
    assert_eq!(frames[0][1919], 1);
    let mut outgoing = BoundedPacketQueue::new(2);
    assert!(matches!(capture.on_encoded(vec![9, 8], &mut outgoing), Some(XzEvent::SendAudioEvent)));
    let drained = outgoing.drain_all();
    assert_eq!(drained.len(), 1);
    assert_eq!(drained[0].sample_rate, 16000);
    assert_eq!(drained[0].frame_duration, 60);
    assert_eq!(drained[0].timestamp, 0);
    assert_eq!(drained[0].payload, vec![9, 8]);
}

#[test]
fn full_outgoing_queue_drops_new_frame() {
    let capture = CaptureEncoder::new(16000, 2, 60).unwrap();
    let mut outgoing = BoundedPacketQueue::new(MAX_AUDIO_PACKETS_IN_QUEUE);
    for i in 0..40u8 {
        assert!(capture.on_encoded(vec![i], &mut outgoing).is_some());
    }
    assert_eq!(outgoing.len(), 40);
    assert!(capture.on_encoded(vec![200], &mut outgoing).is_none());
    assert_eq!(outgoing.len(), 40);
    let drained = outgoing.drain_all();
    assert_eq!(drained[39].payload, vec![39]);
}

#[test]
fn playback_plans_the_writes() {
    let playback = PlaybackDecoder::new(1, 2);
    assert!(PlaybackDecoder::plays_in(DeviceState::Speaking));
    assert!(!PlaybackDecoder::plays_in(DeviceState::Listening));
    assert!(!PlaybackDecoder::plays_in(DeviceState::Idle));
    assert!(playback.on_decoded(Err(DecodeError::Codec(-1))).is_none());
    let plan = playback.on_decoded(Ok(vec![2; 1500])).unwrap();
    assert_eq!(plan.bytes.len(), 6000);
    assert_eq!(plan.chunks, vec![(0, OUTPUT_CHUNK_SIZE), (OUTPUT_CHUNK_SIZE, 6000)]);
    assert_eq!(&plan.bytes[0..4], &[2, 0, 2, 0]);
    let same = PlaybackDecoder::new(2, 2).on_decoded(Ok(vec![-1, 3])).unwrap();
    assert_eq!(same.bytes, vec![0xFF, 0xFF, 3, 0]);
    assert_eq!(same.chunks, vec![(0, 4)]);
    let empty = playback.on_decoded(Ok(vec![])).unwrap();
    assert_eq!(empty.bytes.len(), 0);
    assert_eq!(empty.chunks.len(), 0);
}

#[test]
fn capture_drops_what_the_codec_refuses() {
    let capture = CaptureEncoder::new(16000, 2, 60).unwrap();
    let mut outgoing = BoundedPacketQueue::new(2);
    assert_eq!(
        capture.on_encode_result::<i32>(Ok(vec![1]), &mut outgoing),
        FrameOutcome::Queued
    );
    assert_eq!(
        capture.on_encode_result::<i32>(Err(-3), &mut outgoing),
        FrameOutcome::DroppedByCodec
    );
    assert_eq!(outgoing.len(), 1);
    assert_eq!(
        capture.on_encode_result::<i32>(Ok(vec![2]), &mut outgoing),
        FrameOutcome::Queued
    );
    assert_eq!(
        capture.on_encode_result::<i32>(Ok(vec![3]), &mut outgoing),
        FrameOutcome::DroppedQueueFull
    );
    assert_eq!(
        capture.on_encode_result::<i32>(Err(-1), &mut outgoing),
        FrameOutcome::DroppedByCodec
    );
    let drained = outgoing.drain_all();
    assert_eq!(drained.len(), 2);
    assert_eq!(drained[0].payload, vec![1]);
    assert_eq!(drained[1].payload, vec![2]);
    assert_eq!(drained[1].sample_rate, 16000);
}
