use web_audio::processor::{
    check_script_processor, supported_buffer_size, ScriptProcessorError, MAX_PROCESSOR_CHANNELS,
};

#[test]
fn supported_buffer_sizes() {
    for n in [0, 256, 512, 1024, 2048, 4096, 8192, 16384] {
        assert!(supported_buffer_size(n), "{}", n);
    }
}

#[test]
fn unsupported_buffer_sizes() {
    for n in [-256, 1, 128, 255, 257, 300, 4095, 32768, i32::MAX, i32::MIN] {
        assert!(!supported_buffer_size(n), "{}", n);
    }
}

#[test]
fn valid_processor_parameters() {
    assert_eq!(check_script_processor(4096, 1, 1), Ok(()));
    assert_eq!(check_script_processor(0, 2, 0), Ok(()));
    assert_eq!(check_script_processor(16384, 0, MAX_PROCESSOR_CHANNELS), Ok(()));
}

#[test]
fn bad_buffer_size_is_reported_first() {
    assert_eq!(check_script_processor(1000, 1, 1), Err(ScriptProcessorError::BufferSize));
    assert_eq!(check_script_processor(100, 0, 0), Err(ScriptProcessorError::BufferSize));
}

#[test]
fn channel_count_out_of_range() {
    assert_eq!(check_script_processor(256, -1, 1), Err(ScriptProcessorError::ChannelCount));
    assert_eq!(check_script_processor(256, 1, 33), Err(ScriptProcessorError::ChannelCount));
    assert_eq!(check_script_processor(256, 33, 0), Err(ScriptProcessorError::ChannelCount));
}

#[test]
fn both_channel_counts_zero() {
    assert_eq!(check_script_processor(512, 0, 0), Err(ScriptProcessorError::NoChannels));
}
