use vstd::prelude::*;

verus! {

/// The most input or output channels a script processor may have.
pub const MAX_PROCESSOR_CHANNELS: i32 = 32;

/// Why the platform would refuse to create a script processor.
#[derive(Clone, Copy, Debug, PartialEq, Eq, Structural)]
pub enum ScriptProcessorError {
    /// The buffer size is neither 0 (automatic) nor a power of two from 256
    /// to 16384 frames.
    BufferSize,
    /// A channel count is negative or above the maximum.
    ChannelCount,
    /// Both channel counts are zero.
    NoChannels,
}

/// A frame count that the platform accepts as a processing quantum: 0 asks
/// it to choose, otherwise a power of two from 256 to 16384.
pub open spec fn is_supported_buffer_size(n: int) -> bool {
    ||| n == 0
    ||| n == 256
    ||| n == 512
    ||| n == 1024
    ||| n == 2048
    ||| n == 4096
    ||| n == 8192
    ||| n == 16384
}

pub open spec fn is_supported_channel_count(n: int) -> bool {
    0 <= n <= MAX_PROCESSOR_CHANNELS
}

/// The outcome of checking script-processor parameters; the buffer size is
/// checked first, then each channel count, then that not both are zero.
pub open spec fn spec_check_script_processor(
    buffer_size: int,
    input_channels: int,
    output_channels: int,
) -> Result<(), ScriptProcessorError> {
    if !is_supported_buffer_size(buffer_size) {
        Err(ScriptProcessorError::BufferSize)
    } else if !is_supported_channel_count(input_channels) || !is_supported_channel_count(
        output_channels,
    ) {
        Err(ScriptProcessorError::ChannelCount)
    } else if input_channels == 0 && output_channels == 0 {
        Err(ScriptProcessorError::NoChannels)
    } else {
        Ok(())
    }
}

/// Whether the platform accepts `buffer_size` frames per processing quantum.
pub fn supported_buffer_size(buffer_size: i32) -> (r: bool)
    ensures
        r == is_supported_buffer_size(buffer_size as int),
{
    buffer_size == 0 || buffer_size == 256 || buffer_size == 512 || buffer_size == 1024
        || buffer_size == 2048 || buffer_size == 4096 || buffer_size == 8192 || buffer_size
        == 16384
}

/// Checks the parameters of a script processor before the platform sees them.
pub fn check_script_processor(buffer_size: i32, input_channels: i32, output_channels: i32) -> (r:
    Result<(), ScriptProcessorError>)
    ensures
        r == spec_check_script_processor(
            buffer_size as int,
            input_channels as int,
            output_channels as int,
        ),
        r is Ok <==> {
            &&& is_supported_buffer_size(buffer_size as int)
            &&& 0 <= input_channels <= MAX_PROCESSOR_CHANNELS
            &&& 0 <= output_channels <= MAX_PROCESSOR_CHANNELS
            &&& (input_channels > 0 || output_channels > 0)
        },
{
    if !supported_buffer_size(buffer_size) {
        Err(ScriptProcessorError::BufferSize)
    } else if input_channels < 0 || input_channels > MAX_PROCESSOR_CHANNELS || output_channels < 0
        || output_channels > MAX_PROCESSOR_CHANNELS {
        Err(ScriptProcessorError::ChannelCount)
    } else if input_channels == 0 && output_channels == 0 {
        Err(ScriptProcessorError::NoChannels)
    } else {
        Ok(())
    }
}

} // verus!
