use crate::audio::audio_config::AudioConfig;
use crate::common::property_collection::PropertyCollection;
use crate::error::convert_err;
use crate::error::Error;
use crate::error::SPX_NOERROR;
use crate::flow::push_release;
use crate::flow::Answer;
use crate::flow::Failure;
use crate::flow::FailureView;
use crate::flow::Ledger;
use crate::flow::Step;
use crate::flow::StepView;
use crate::handle::HandleView;
use crate::handle::SmartHandle;
use crate::native::Handle;
use crate::native::NativeCall;
use crate::native::NativeCallView;
use crate::native::Resource;
use crate::native::ResourceKind;
use crate::native::EMPTY_HANDLE;
use crate::speech::speech_config::SpeechConfig;
use crate::speech::speech_config::SpeechConfigView;
use vstd::prelude::*;

verus! {

/// A speech recognizer of the engine. It owns its handle and its properties,
/// and keeps the speech configuration and the audio configuration that it was
/// made from for as long as it lives.
#[derive(Debug)]
pub struct SpeechRecognizer {
    handle: SmartHandle,
    properties: PropertyCollection,
    speech_config: SpeechConfig,
    audio_config: AudioConfig,
}

/// What a [`SpeechRecognizer`] owns.
pub struct SpeechRecognizerView {
    pub handle: HandleView,
    pub properties: HandleView,
    pub speech_config: SpeechConfigView,
    pub audio_config: HandleView,
}

impl SpeechRecognizerView {
    /// Each owner holds a resource of its own kind.
    pub open spec fn well_formed(self) -> bool {
        &&& self.handle.kind == ResourceKind::SpeechRecognizer
        &&& self.properties.kind == ResourceKind::PropertyBag
        &&& self.speech_config.well_formed()
        &&& self.audio_config.kind == ResourceKind::AudioConfig
    }

    /// The releases that give back all that the recognizer owns: the
    /// recognizer, its property bag, the speech configuration and the audio
    /// configuration, in this order.
    pub open spec fn pending(self) -> Seq<Resource> {
        self.handle.pending() + self.properties.pending() + self.speech_config.pending()
            + self.audio_config.pending()
    }

    /// The recognizer after a release.
    pub open spec fn released(self) -> SpeechRecognizerView {
        SpeechRecognizerView {
            handle: self.handle.released(),
            properties: self.properties.released(),
            speech_config: self.speech_config.released(),
            audio_config: self.audio_config.released(),
        }
    }
}

impl View for SpeechRecognizer {
    type V = SpeechRecognizerView;

    closed spec fn view(&self) -> SpeechRecognizerView {
        SpeechRecognizerView {
            handle: self.handle@,
            properties: self.properties@,
            speech_config: self.speech_config@,
            audio_config: self.audio_config@,
        }
    }
}

/// A recognizer in the making. From its first step on it owns the two
/// configurations it is made from.
#[derive(Debug)]
pub enum SpeechRecognizerSetup {
    /// Waiting for the engine to create the recognizer.
    Creating { speech_config: SpeechConfig, audio_config: AudioConfig },
    /// Waiting for the property bag of the recognizer.
    FetchingProperties { handle: SmartHandle, speech_config: SpeechConfig, audio_config: AudioConfig },
}

/// What a [`SpeechRecognizerSetup`] owns at its stage.
pub enum SpeechRecognizerSetupView {
    Creating { speech_config: SpeechConfigView, audio_config: HandleView },
    FetchingProperties {
        handle: HandleView,
        speech_config: SpeechConfigView,
        audio_config: HandleView,
    },
}

impl View for SpeechRecognizerSetup {
    type V = SpeechRecognizerSetupView;

    open spec fn view(&self) -> SpeechRecognizerSetupView {
        match *self {
            SpeechRecognizerSetup::Creating { speech_config, audio_config } => {
                SpeechRecognizerSetupView::Creating {
                    speech_config: speech_config@,
                    audio_config: audio_config@,
                }
            },
            SpeechRecognizerSetup::FetchingProperties { handle, speech_config, audio_config } => {
                SpeechRecognizerSetupView::FetchingProperties {
                    handle: handle@,
                    speech_config: speech_config@,
                    audio_config: audio_config@,
                }
            },
        }
    }
}

impl SpeechRecognizerSetupView {
    /// Each owner holds a resource of its own kind, and the recognizer, once
    /// made, is live.
    pub open spec fn well_formed(self) -> bool {
        match self {
            SpeechRecognizerSetupView::Creating { speech_config, audio_config } => {
                speech_config.well_formed() && audio_config.kind == ResourceKind::AudioConfig
            },
            SpeechRecognizerSetupView::FetchingProperties { handle, speech_config, audio_config } => {
                &&& handle.kind == ResourceKind::SpeechRecognizer
                &&& handle.is_live()
                &&& speech_config.well_formed()
                &&& audio_config.kind == ResourceKind::AudioConfig
            },
        }
    }

    /// The releases for what the engine has made for this setup so far.
    pub open spec fn made(self) -> Seq<Resource> {
        match self {
            SpeechRecognizerSetupView::Creating { .. } => Seq::empty(),
            SpeechRecognizerSetupView::FetchingProperties { handle, .. } => handle.pending(),
        }
    }

    /// The releases for the two configurations that the setup took over.
    pub open spec fn taken(self) -> Seq<Resource> {
        match self {
            SpeechRecognizerSetupView::Creating { speech_config, audio_config } => {
                speech_config.pending() + audio_config.pending()
            },
            SpeechRecognizerSetupView::FetchingProperties { speech_config, audio_config, .. } => {
                speech_config.pending() + audio_config.pending()
            },
        }
    }

    /// The releases that give back all that the setup owns.
    pub open spec fn pending(self) -> Seq<Resource> {
        self.made() + self.taken()
    }

    /// `call` is the call whose answer the setup waits for.
    pub open spec fn awaits(self, call: NativeCallView) -> bool {
        match self {
            SpeechRecognizerSetupView::Creating { .. } => call is RecognizerFromConfig,
            SpeechRecognizerSetupView::FetchingProperties { .. } => call is RecognizerPropertyBag,
        }
    }

    /// The step taken when the engine answers the awaited call with `status`
    /// and the handle `answer`.
    ///
    /// A status other than success ends the setup with the engine's error, and
    /// so does a new recognizer without a handle. The setup then releases what
    /// it owns, the two configurations included: they are gone whether the
    /// recognizer came to be or not.
    pub open spec fn advance(self, status: usize, answer: Handle) -> StepView<
        SpeechRecognizerSetupView,
        SpeechRecognizerView,
    > {
        match self {
            SpeechRecognizerSetupView::Creating { speech_config, audio_config } => {
                let handle = SpeechRecognizer::of_handle(answer);
                if status != SPX_NOERROR {
                    StepView::Failed(
                        FailureView {
                            error: Error::NativeError {
                                code: status,
                                context: "SpeechRecognizer::from_config error",
                            },
                            releases: self.pending(),
                        },
                    )
                } else if !handle.is_live() {
                    StepView::Failed(
                        FailureView { error: Error::AlreadyReleased, releases: self.pending() },
                    )
                } else {
                    StepView::Call(
                        SpeechRecognizerSetupView::FetchingProperties {
                            handle,
                            speech_config,
                            audio_config,
                        },
                        NativeCallView::RecognizerPropertyBag { recognizer: answer },
                    )
                }
            },
            SpeechRecognizerSetupView::FetchingProperties { handle, speech_config, audio_config } => {
                if status != SPX_NOERROR {
                    StepView::Failed(
                        FailureView {
                            error: Error::NativeError {
                                code: status,
                                context: "SpeechRecognizer::from_handle error",
                            },
                            releases: self.pending(),
                        },
                    )
                } else {
                    StepView::Ready(
                        SpeechRecognizerView {
                            handle,
                            properties: PropertyCollection::of_bag(answer),
                            speech_config,
                            audio_config,
                        },
                    )
                }
            },
        }
    }
}

impl SpeechRecognizer {
    /// The owner of the recognizer `handle`.
    pub open spec fn of_handle(handle: Handle) -> HandleView {
        HandleView { label: "SpeechRecognizer"@, handle, kind: ResourceKind::SpeechRecognizer }
    }

    /// The first step of making a recognizer from the two configurations: the
    /// call that creates it from their handles. A configuration that has been
    /// released makes no recognizer; what is left of the two is released.
    pub open spec fn config_step(speech_config: SpeechConfigView, audio_config: HandleView) -> StepView<
        SpeechRecognizerSetupView,
        SpeechRecognizerView,
    > {
        if !speech_config.handle.is_live() || !audio_config.is_live() {
            StepView::Failed(
                FailureView {
                    error: Error::AlreadyReleased,
                    releases: speech_config.pending() + audio_config.pending(),
                },
            )
        } else {
            StepView::Call(
                SpeechRecognizerSetupView::Creating { speech_config, audio_config },
                NativeCallView::RecognizerFromConfig {
                    config: speech_config.handle.handle,
                    audio: audio_config.handle,
                },
            )
        }
    }

    /// The account of a setup that stands at `step`, is driven on by the
    /// engine's answers in order, and is then given up: a setup that still
    /// waits is abandoned, a recognizer that is ready is released.
    pub open spec fn ledger(
        step: StepView<SpeechRecognizerSetupView, SpeechRecognizerView>,
        answers: Seq<Answer>,
    ) -> Ledger
        decreases answers.len(),
    {
        match step {
            StepView::Call(setup, call) => {
                if answers.len() == 0 {
                    Ledger { created: Seq::empty(), released: setup.pending() }
                } else {
                    let answer = answers[0];
                    let rest = Self::ledger(
                        setup.advance(answer.status, answer.handle),
                        answers.drop_first(),
                    );
                    Ledger {
                        created: call.created(answer.status, answer.handle) + rest.created,
                        released: rest.released,
                    }
                }
            },
            StepView::Ready(recognizer) => Ledger {
                created: Seq::empty(),
                released: recognizer.pending(),
            },
            StepView::Failed(failure) => Ledger {
                created: Seq::empty(),
                released: failure.releases,
            },
        }
    }

    /// Begins a recognizer. Both configurations move in: from here on the
    /// setup, the recognizer or the releases of a failure hold them, and the
    /// caller holds them no more.
    pub fn from_config(speech_config: SpeechConfig, audio_config: AudioConfig) -> (step: Step<
        SpeechRecognizerSetup,
        SpeechRecognizer,
    >)
        ensures
            step@ == Self::config_step(speech_config@, audio_config@),
    {
        let config = speech_config.get_handle();
        let audio = audio_config.get_handle();
        if config == EMPTY_HANDLE || audio == EMPTY_HANDLE {
            let mut speech_config = speech_config;
            let mut audio_config = audio_config;
            let mut releases = speech_config.release();
            push_release(&mut releases, audio_config.release());
            return Step::Failed(Failure { error: Error::AlreadyReleased, releases });
        }
        Step::Call(
            SpeechRecognizerSetup::Creating { speech_config, audio_config },
            NativeCall::RecognizerFromConfig { config, audio },
        )
    }

    /// Name of the owning type, for diagnostics.
    pub fn label(&self) -> (label: &'static str)
        ensures
            label@ == self@.handle.label,
    {
        self.handle.label()
    }

    /// The recognizer's handle, for passing into a call.
    pub fn get_handle(&self) -> (handle: Handle)
        ensures
            handle == self@.handle.handle,
    {
        self.handle.inner()
    }

    /// The recognizer's properties.
    pub fn properties(&self) -> (properties: &PropertyCollection)
        ensures
            properties@ == self@.properties,
    {
        &self.properties
    }

    /// The speech configuration that the recognizer was made from.
    pub fn speech_config(&self) -> (speech_config: &SpeechConfig)
        ensures
            speech_config@ == self@.speech_config,
    {
        &self.speech_config
    }

    /// The audio configuration that the recognizer was made from.
    pub fn audio_config(&self) -> (audio_config: &AudioConfig)
        ensures
            audio_config@ == self@.audio_config,
    {
        &self.audio_config
    }

    /// Gives up the recognizer and all it owns. The releases to perform come
    /// back the first time; later calls give none.
    pub fn release(&mut self) -> (releases: Vec<Resource>)
        ensures
            releases@ == old(self)@.pending(),
            final(self)@ == old(self)@.released(),
    {
        let mut releases: Vec<Resource> = Vec::new();
        push_release(&mut releases, self.handle.release());
        push_release(&mut releases, self.properties.release());
        let mut of_config = self.speech_config.release();
        releases.append(&mut of_config);
        push_release(&mut releases, self.audio_config.release());
        releases
    }
}

impl SpeechRecognizerSetup {
    /// Takes the engine's answer to the awaited call and goes on.
    pub fn advance(self, status: usize, answer: Handle) -> (step: Step<
        SpeechRecognizerSetup,
        SpeechRecognizer,
    >)
        ensures
            step@ == self@.advance(status, answer),
    {
        match self {
            SpeechRecognizerSetup::Creating { speech_config, audio_config } => {
                let error = match convert_err(status, "SpeechRecognizer::from_config error") {
                    Err(error) => error,
                    Ok(()) => {
                        if answer == EMPTY_HANDLE {
                            Error::AlreadyReleased
                        } else {
                            return Step::Call(
                                SpeechRecognizerSetup::FetchingProperties {
                                    handle: SmartHandle::create(
                                        "SpeechRecognizer",
                                        answer,
                                        ResourceKind::SpeechRecognizer,
                                    ),
                                    speech_config,
                                    audio_config,
                                },
                                NativeCall::RecognizerPropertyBag { recognizer: answer },
                            );
                        }
                    },
                };
                let setup = SpeechRecognizerSetup::Creating { speech_config, audio_config };
                Step::Failed(Failure { error, releases: setup.release() })
            },
            SpeechRecognizerSetup::FetchingProperties { handle, speech_config, audio_config } => {
                match convert_err(status, "SpeechRecognizer::from_handle error") {
                    Ok(()) => Step::Ready(
                        SpeechRecognizer {
                            handle,
                            properties: PropertyCollection::from_handle(answer),
                            speech_config,
                            audio_config,
                        },
                    ),
                    Err(error) => {
                        let setup = SpeechRecognizerSetup::FetchingProperties {
                            handle,
                            speech_config,
                            audio_config,
                        };
                        Step::Failed(Failure { error, releases: setup.release() })
                    },
                }
            },
        }
    }

    /// Abandons the setup: the releases that give back what it owns.
    pub fn release(self) -> (releases: Vec<Resource>)
        ensures
            releases@ == self@.pending(),
    {
        let mut releases: Vec<Resource> = Vec::new();
        match self {
            SpeechRecognizerSetup::Creating { speech_config, audio_config } => {
                let mut speech_config = speech_config;
                let mut audio_config = audio_config;
                let mut of_config = speech_config.release();
                releases.append(&mut of_config);
                push_release(&mut releases, audio_config.release());
            },
            SpeechRecognizerSetup::FetchingProperties { handle, speech_config, audio_config } => {
                let mut handle = handle;
                let mut speech_config = speech_config;
                let mut audio_config = audio_config;
                push_release(&mut releases, handle.release());
                let mut of_config = speech_config.release();
                releases.append(&mut of_config);
                push_release(&mut releases, audio_config.release());
            },
        }
        releases
    }
}

/// Every step of a setup hands out the call that the next state waits for.
pub proof fn lemma_recognizer_setup_awaits_its_call(
    setup: SpeechRecognizerSetupView,
    status: usize,
    answer: Handle,
)
    ensures
        setup.advance(status, answer) matches StepView::Call(next, call) ==> next.awaits(call),
{
}

/// A setup that starts from two configurations of the right kinds holds each
/// resource under its own kind up to the finished recognizer, which holds
/// the very configurations that were moved in.
pub proof fn lemma_recognizer_setup_stays_well_formed(
    speech_config: SpeechConfigView,
    audio_config: HandleView,
    setup: SpeechRecognizerSetupView,
    status: usize,
    answer: Handle,
)
    ensures
        speech_config.well_formed() && audio_config.kind == ResourceKind::AudioConfig
            ==> match SpeechRecognizer::config_step(speech_config, audio_config) {
            StepView::Call(first, _) => first.well_formed() && first.taken()
                == speech_config.pending() + audio_config.pending(),
            StepView::Ready(_) => false,
            StepView::Failed(failure) => failure.releases == speech_config.pending()
                + audio_config.pending(),
        },
        setup.well_formed() ==> match setup.advance(status, answer) {
            StepView::Call(next, _) => next.well_formed() && next.taken() == setup.taken(),
            StepView::Ready(recognizer) => {
                &&& recognizer.well_formed()
                &&& recognizer.handle.is_live()
                &&& recognizer.speech_config.pending() + recognizer.audio_config.pending()
                    == setup.taken()
            },
            StepView::Failed(failure) => failure.releases == setup.made() + setup.taken(),
        },
{
}

/// A setup gives back all that it owns and all that the engine makes for it:
/// however the engine answers and wherever the setup ends or is abandoned, the
/// releases ordered are what the engine had made for it, followed by what was
/// made from then on and by the two configurations, each resource once.
pub proof fn lemma_recognizer_setup_leaks_nothing(
    setup: SpeechRecognizerSetupView,
    call: NativeCallView,
    answers: Seq<Answer>,
)
    requires
        setup.awaits(call),
    ensures
        ({
            let ledger = SpeechRecognizer::ledger(StepView::Call(setup, call), answers);
            ledger.released == setup.made() + ledger.created + setup.taken()
        }),
    decreases answers.len(),
{
    let taken = setup.taken();
    if answers.len() > 0 {
        let answer = answers[0];
        let made = call.created(answer.status, answer.handle);
        let next = setup.advance(answer.status, answer.handle);
        let rest = SpeechRecognizer::ledger(next, answers.drop_first());
        match next {
            StepView::Call(waiting, next_call) => {
                lemma_recognizer_setup_awaits_its_call(setup, answer.status, answer.handle);
                lemma_recognizer_setup_leaks_nothing(waiting, next_call, answers.drop_first());
                assert(waiting.made() == setup.made() + made && waiting.taken() == taken);
            },
            StepView::Ready(recognizer) => {
                assert(rest.released == setup.made() + made + taken);
            },
            StepView::Failed(failure) => {
                assert(rest.released == setup.made() + made + taken);
            },
        }
    }
}

/// Making a recognizer moves the two configurations into it for good: for
/// every pair of configurations, whatever the engine answers and wherever the
/// making ends, the releases ordered are the resources that the engine made
/// for the recognizer, followed by those of the speech configuration and of
/// the audio configuration, each once. Nothing of the configurations is left
/// for the caller to release.
pub proof fn lemma_from_config_leaks_nothing(
    speech_config: SpeechConfigView,
    audio_config: HandleView,
    answers: Seq<Answer>,
)
    ensures
        ({
            let ledger = SpeechRecognizer::ledger(
                SpeechRecognizer::config_step(speech_config, audio_config),
                answers,
            );
            ledger.released == ledger.created + speech_config.pending() + audio_config.pending()
        }),
{
    let taken = speech_config.pending() + audio_config.pending();
    let first = SpeechRecognizer::config_step(speech_config, audio_config);
    let ledger = SpeechRecognizer::ledger(first, answers);
    match first {
        StepView::Call(setup, call) => {
            lemma_recognizer_setup_leaks_nothing(setup, call, answers);
            assert(setup.made() == Seq::<Resource>::empty() && setup.taken() == taken);
        },
        _ => {
            assert(ledger.released == taken && ledger.created == Seq::<Resource>::empty());
        },
    }
}

/// A recognizer that has been released has nothing left to release.
pub proof fn lemma_recognizer_released_once(recognizer: SpeechRecognizerView)
    ensures
        recognizer.released().pending() == Seq::<Resource>::empty(),
        recognizer.released().released() == recognizer.released(),
{
}

/// No step of a setup asks anything of the empty handle.
pub proof fn lemma_recognizer_setup_names_live_handles(
    speech_config: SpeechConfigView,
    audio_config: HandleView,
    setup: SpeechRecognizerSetupView,
    status: usize,
    answer: Handle,
)
    ensures
        SpeechRecognizer::config_step(speech_config, audio_config) matches StepView::Call(_, call)
            ==> call.names_live_handles(),
        setup.advance(status, answer) matches StepView::Call(_, call)
            ==> call.names_live_handles(),
{
}

} // verus!
