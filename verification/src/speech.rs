//! Speech configurations, recognizers and the events they raise.

pub mod session_event;
pub mod speech_config;
pub mod speech_recognizer;

pub use self::session_event::SessionEvent;
pub use self::speech_config::SpeechConfig;
pub use self::speech_config::SpeechConfigSetup;
pub use self::speech_recognizer::SpeechRecognizer;
pub use self::speech_recognizer::SpeechRecognizerSetup;
