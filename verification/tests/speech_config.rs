use speech_sdk::error::Error;
use speech_sdk::flow::Failure;
use speech_sdk::flow::Step;
use speech_sdk::native::NativeCall;
use speech_sdk::native::Resource;
use speech_sdk::native::ResourceKind;
use speech_sdk::speech::speech_config::SYSTEM_LANGUAGE;
use speech_sdk::speech::speech_config::SYSTEM_LANGUAGE_PROPERTY;
use speech_sdk::speech::SpeechConfig;
use speech_sdk::speech::SpeechConfigSetup;

/// A stand-in for the engine that hands out fresh handles and keeps count.
struct MockEngine {
    next_handle: usize,
    fail_at_call: Option<usize>,
    calls: Vec<NativeCall>,
    created: Vec<Resource>,
    released: Vec<Resource>,
}

impl MockEngine {
    fn new(fail_at_call: Option<usize>) -> MockEngine {
        MockEngine { next_handle: 100, fail_at_call, calls: Vec::new(), created: Vec::new(), released: Vec::new() }
    }

    fn answer(&mut self, call: NativeCall) -> (usize, usize) {
        let index = self.calls.len();
        let kind = match &call {
            NativeCall::SpeechConfigFromSubscription { .. } => Some(ResourceKind::SpeechConfig),
            NativeCall::SpeechConfigPropertyBag { .. } => Some(ResourceKind::PropertyBag),
            _ => None,
        };
        self.calls.push(call);
        if self.fail_at_call == Some(index) {
            return (0x5, 0);
        }
        match kind {
            Some(kind) => {
                let handle = self.next_handle;
                self.next_handle += 1;
                self.created.push(Resource { kind, handle });
                (0, handle)
            },
            None => (0, 0),
        }
    }

    fn release(&mut self, releases: Vec<Resource>) {
        self.released.extend(releases);
    }
}

fn make(engine: &mut MockEngine, subscription: &str, region: &str) -> Result<SpeechConfig, Failure> {
    let mut step = SpeechConfig::from_subscription(subscription, region);
    loop {
        match step {
            Step::Call(setup, call) => {
                let (status, handle) = engine.answer(call);
                step = setup.advance(status, handle);
            },
            Step::Ready(config) => return Ok(config),
            Step::Failed(failure) => return Err(failure),
        }
    }
}

fn make_and_release(engine: &mut MockEngine, subscription: &str, region: &str) -> Option<Error> {
    match make(engine, subscription, region) {
        Ok(mut config) => {
            engine.release(config.release());
            engine.release(config.release());
            None
        },
        Err(failure) => {
            engine.release(failure.releases);
            Some(failure.error)
        },
    }
}

#[test]
fn from_subscription_asks_to_create_the_config() {
    match SpeechConfig::from_subscription("key", "westeurope") {
        Step::Call(SpeechConfigSetup::Creating, call) => assert_eq!(
            call,
            NativeCall::SpeechConfigFromSubscription {
                subscription: vec![b'k', b'e', b'y', 0],
                region: b"westeurope\0".to_vec(),
            }
        ),
        other => panic!("unexpected {:?}", other),
    }
}

#[test]
fn from_subscription_with_embedded_zero_makes_no_call() {
    for (subscription, region) in [("k\0ey", "region"), ("key", "reg\0ion"), ("\0", "\0")] {
        let mut engine = MockEngine::new(None);
        assert_eq!(make_and_release(&mut engine, subscription, region), Some(Error::InvalidArgument));
        assert_eq!(engine.calls.len(), 0);
        assert_eq!(engine.released.len(), 0);
    }
}

#[test]
fn from_subscription_creates_fetches_the_bag_and_tags_it() {
    let mut engine = MockEngine::new(None);
    let config = make(&mut engine, "key", "region").unwrap();
    assert_eq!(config.get_handle(), 100);
    assert_eq!(config.label(), "SpeechConfig");
    assert_eq!(config.properties().get_handle(), 101);
    assert_eq!(SYSTEM_LANGUAGE_PROPERTY, "SPEECHSDK-SPEECH-CONFIG-SYSTEM-LANGUAGE");
    assert_eq!(SYSTEM_LANGUAGE, "Rust");
    assert_eq!(
        engine.calls,
        vec![
            NativeCall::SpeechConfigFromSubscription {
                subscription: b"key\0".to_vec(),
                region: b"region\0".to_vec(),
            },
            NativeCall::SpeechConfigPropertyBag { config: 100 },
            NativeCall::PropertySetString {
                bag: 101,
                name: b"SPEECHSDK-SPEECH-CONFIG-SYSTEM-LANGUAGE\0".to_vec(),
                value: b"Rust\0".to_vec(),
            },
        ]
    );
}

#[test]
fn release_gives_the_config_then_its_bag_once() {
    let mut engine = MockEngine::new(None);
    let mut config = make(&mut engine, "key", "region").unwrap();
    assert_eq!(
        config.release(),
        vec![
            Resource { kind: ResourceKind::SpeechConfig, handle: 100 },
            Resource { kind: ResourceKind::PropertyBag, handle: 101 },
        ]
    );
    assert_eq!(config.release(), Vec::new());
    assert_eq!(config.get_handle(), 0);
    assert_eq!(config.properties().get_handle(), 0);
}

#[test]
fn from_subscription_then_release_matches_creates_and_releases() {
    for (subscription, region) in [("key", "region"), ("", ""), ("clé", "région-ü"), ("🔑", "🌍")] {
        let mut engine = MockEngine::new(None);
        assert_eq!(make_and_release(&mut engine, subscription, region), None);
        assert_eq!(engine.created.len(), 2);
        assert_eq!(engine.released, engine.created);
    }
}

#[test]
fn a_failure_at_any_call_leaks_nothing() {
    let contexts = [
        "SpeechConfig::from_subscription error",
        "SpeechConfig::from_handle error",
        "PropertyCollection::set_property_by_string error",
    ];
    for (at, context) in contexts.iter().enumerate() {
        let mut engine = MockEngine::new(Some(at));
        assert_eq!(
            make_and_release(&mut engine, "key", "region"),
            Some(Error::NativeError { code: 5, context })
        );
        assert_eq!(engine.calls.len(), at + 1);
        assert_eq!(engine.created.len(), at);
        assert_eq!(engine.released, engine.created);
    }
}

#[test]
fn a_config_without_a_handle_ends_the_setup() {
    let setup = match SpeechConfig::from_subscription("key", "region") {
        Step::Call(setup, _) => setup,
        other => panic!("unexpected {:?}", other),
    };
    match setup.advance(0, 0) {
        Step::Failed(failure) => {
            assert_eq!(failure, Failure { error: Error::AlreadyReleased, releases: Vec::new() })
        },
        other => panic!("unexpected {:?}", other),
    }
}

#[test]
fn a_bag_without_a_handle_releases_the_config() {
    let setup = match SpeechConfig::from_subscription("key", "region") {
        Step::Call(setup, _) => setup,
        other => panic!("unexpected {:?}", other),
    };
    let setup = match setup.advance(0, 8) {
        Step::Call(setup, NativeCall::SpeechConfigPropertyBag { config: 8 }) => setup,
        other => panic!("unexpected {:?}", other),
    };
    match setup.advance(0, 0) {
        Step::Failed(failure) => assert_eq!(
            failure,
            Failure {
                error: Error::AlreadyReleased,
                releases: vec![Resource { kind: ResourceKind::SpeechConfig, handle: 8 }],
            }
        ),
        other => panic!("unexpected {:?}", other),
    }
}

#[test]
fn an_abandoned_setup_releases_what_it_owns() {
    let setup = match SpeechConfig::from_subscription("key", "region") {
        Step::Call(setup, _) => setup,
        other => panic!("unexpected {:?}", other),
    };
    let setup = match setup.advance(0, 8) {
        Step::Call(setup, _) => setup,
        other => panic!("unexpected {:?}", other),
    };
    let setup = match setup.advance(0, 9) {
        Step::Call(setup, _) => setup,
        other => panic!("unexpected {:?}", other),
    };
    assert_eq!(
        setup.release(),
        vec![
            Resource { kind: ResourceKind::SpeechConfig, handle: 8 },
            Resource { kind: ResourceKind::PropertyBag, handle: 9 },
        ]
    );
    match SpeechConfig::from_subscription("key", "region") {
        Step::Call(setup, _) => assert_eq!(setup.release(), Vec::new()),
        other => panic!("unexpected {:?}", other),
    }
}
