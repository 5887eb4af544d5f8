//! Audio streams and audio configurations.

pub mod audio_config;
pub mod pull_audio_output_stream;

pub use self::audio_config::AudioConfig;
pub use self::pull_audio_output_stream::AudioOutputStream;
pub use self::pull_audio_output_stream::PullAudioOutputStream;
