use speech_sdk::audio::AudioConfig;
use speech_sdk::error::Error;
use speech_sdk::flow::Step;
use speech_sdk::native::NativeCall;
use speech_sdk::native::Resource;
use speech_sdk::native::ResourceKind;
use speech_sdk::speech::SpeechConfig;
use speech_sdk::speech::SpeechRecognizer;
use speech_sdk::speech::SpeechRecognizerSetup;

fn speech_config(handle: usize, bag: usize) -> SpeechConfig {
    let setup = match SpeechConfig::from_subscription("key", "region") {
        Step::Call(setup, _) => setup,
        other => panic!("unexpected {:?}", other),
    };
    let setup = match setup.advance(0, handle) {
        Step::Call(setup, _) => setup,
        other => panic!("unexpected {:?}", other),
    };
    let setup = match setup.advance(0, bag) {
        Step::Call(setup, _) => setup,
        other => panic!("unexpected {:?}", other),
    };
    match setup.advance(0, 0) {
        Step::Ready(config) => config,
        other => panic!("unexpected {:?}", other),
    }
}

fn inputs() -> Vec<Resource> {
    vec![
        Resource { kind: ResourceKind::SpeechConfig, handle: 1 },
        Resource { kind: ResourceKind::PropertyBag, handle: 2 },
        Resource { kind: ResourceKind::AudioConfig, handle: 3 },
    ]
}

fn begin() -> SpeechRecognizerSetup {
    match SpeechRecognizer::from_config(speech_config(1, 2), AudioConfig::from_handle(3)) {
        Step::Call(setup, call) => {
            assert_eq!(call, NativeCall::RecognizerFromConfig { config: 1, audio: 3 });
            setup
        },
        other => panic!("unexpected {:?}", other),
    }
}

#[test]
fn audio_config_owns_its_handle() {
    let mut audio = AudioConfig::from_handle(3);
    assert_eq!(audio.get_handle(), 3);
    assert_eq!(audio.label(), "AudioConfig");
    assert_eq!(audio.release(), Some(Resource { kind: ResourceKind::AudioConfig, handle: 3 }));
    assert_eq!(audio.release(), None);
}

#[test]
fn from_config_creates_the_recognizer_and_fetches_its_bag() {
    let setup = begin();
    let setup = match setup.advance(0, 4) {
        Step::Call(setup, call) => {
            assert_eq!(call, NativeCall::RecognizerPropertyBag { recognizer: 4 });
            setup
        },
        other => panic!("unexpected {:?}", other),
    };
    let recognizer = match setup.advance(0, 5) {
        Step::Ready(recognizer) => recognizer,
        other => panic!("unexpected {:?}", other),
    };
    assert_eq!(recognizer.get_handle(), 4);
    assert_eq!(recognizer.label(), "SpeechRecognizer");
    assert_eq!(recognizer.speech_config().label(), "SpeechConfig");
    assert_eq!(recognizer.properties().label(), "PropertyCollection");
    assert_eq!(recognizer.properties().get_handle(), 5);
    assert_eq!(recognizer.speech_config().get_handle(), 1);
    assert_eq!(recognizer.speech_config().properties().get_handle(), 2);
    assert_eq!(recognizer.audio_config().get_handle(), 3);
}

#[test]
fn the_recognizer_releases_itself_and_the_configs_it_took() {
    let setup = match begin().advance(0, 4) {
        Step::Call(setup, _) => setup,
        other => panic!("unexpected {:?}", other),
    };
    let mut recognizer = match setup.advance(0, 5) {
        Step::Ready(recognizer) => recognizer,
        other => panic!("unexpected {:?}", other),
    };
    let mut expected = vec![
        Resource { kind: ResourceKind::SpeechRecognizer, handle: 4 },
        Resource { kind: ResourceKind::PropertyBag, handle: 5 },
    ];
    expected.extend(inputs());
    assert_eq!(recognizer.release(), expected);
    assert_eq!(recognizer.release(), Vec::new());
    assert_eq!(recognizer.speech_config().get_handle(), 0);
    assert_eq!(recognizer.audio_config().get_handle(), 0);
}

#[test]
fn a_failed_creation_releases_both_configs() {
    match begin().advance(0x7, 4) {
        Step::Failed(failure) => {
            assert_eq!(
                failure.error,
                Error::NativeError { code: 7, context: "SpeechRecognizer::from_config error" }
            );
            assert_eq!(failure.releases, inputs());
        },
        other => panic!("unexpected {:?}", other),
    }
}

#[test]
fn a_failed_bag_releases_the_recognizer_and_both_configs() {
    let setup = match begin().advance(0, 4) {
        Step::Call(setup, _) => setup,
        other => panic!("unexpected {:?}", other),
    };
    match setup.advance(0x8, 5) {
        Step::Failed(failure) => {
            assert_eq!(
                failure.error,
                Error::NativeError { code: 8, context: "SpeechRecognizer::from_handle error" }
            );
            let mut expected = vec![Resource { kind: ResourceKind::SpeechRecognizer, handle: 4 }];
            expected.extend(inputs());
            assert_eq!(failure.releases, expected);
        },
        other => panic!("unexpected {:?}", other),
    }
}

#[test]
fn a_recognizer_without_a_handle_ends_the_setup() {
    match begin().advance(0, 0) {
        Step::Failed(failure) => {
            assert_eq!(failure.error, Error::AlreadyReleased);
            assert_eq!(failure.releases, inputs());
        },
        other => panic!("unexpected {:?}", other),
    }
}

#[test]
fn released_configs_make_no_recognizer() {
    let mut config = speech_config(1, 2);
    config.release();
    match SpeechRecognizer::from_config(config, AudioConfig::from_handle(3)) {
        Step::Failed(failure) => {
            assert_eq!(failure.error, Error::AlreadyReleased);
            assert_eq!(
                failure.releases,
                vec![Resource { kind: ResourceKind::AudioConfig, handle: 3 }]
            );
        },
        other => panic!("unexpected {:?}", other),
    }
    match SpeechRecognizer::from_config(speech_config(1, 2), AudioConfig::from_handle(0)) {
        Step::Failed(failure) => {
            assert_eq!(failure.error, Error::AlreadyReleased);
            assert_eq!(
                failure.releases,
                vec![
                    Resource { kind: ResourceKind::SpeechConfig, handle: 1 },
                    Resource { kind: ResourceKind::PropertyBag, handle: 2 },
                ]
            );
        },
        other => panic!("unexpected {:?}", other),
    }
}

#[test]
fn an_abandoned_setup_releases_the_configs_it_took() {
    assert_eq!(begin().release(), inputs());
    let setup = match begin().advance(0, 4) {
        Step::Call(setup, _) => setup,
        other => panic!("unexpected {:?}", other),
    };
    let mut expected = vec![Resource { kind: ResourceKind::SpeechRecognizer, handle: 4 }];
    expected.extend(inputs());
    assert_eq!(setup.release(), expected);
}
