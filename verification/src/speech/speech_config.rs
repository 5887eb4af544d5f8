use crate::c_string::c_string;
use crate::c_string::is_c_safe;
use crate::c_string::lemma_c_safe_chars;
use crate::c_string::to_c_string;
use crate::common::property_collection::PropertyCollection;
use crate::error::convert_err;
use crate::error::Error;
use crate::error::SPX_NOERROR;
use crate::flow::push_release;
use crate::flow::Answer;
use crate::flow::Failure;
use crate::flow::FailureView;
use crate::flow::Ledger;
use crate::flow::Step;
use crate::flow::StepView;
use crate::handle::HandleView;
use crate::handle::SmartHandle;
use crate::native::Handle;
use crate::native::NativeCall;
use crate::native::NativeCallView;
use crate::native::Resource;
use crate::native::ResourceKind;
use crate::native::EMPTY_HANDLE;
use vstd::prelude::*;

verus! {

/// Name of the property that marks a configuration with the language of the
/// binding that made it.
pub const SYSTEM_LANGUAGE_PROPERTY: &'static str = "SPEECHSDK-SPEECH-CONFIG-SYSTEM-LANGUAGE";

/// Value of the property named by [`SYSTEM_LANGUAGE_PROPERTY`].
pub const SYSTEM_LANGUAGE: &'static str = "Rust";

/// A speech configuration of the engine, with its properties.
#[derive(Debug)]
pub struct SpeechConfig {
    handle: SmartHandle,
    properties: PropertyCollection,
}

/// What a [`SpeechConfig`] owns.
pub struct SpeechConfigView {
    pub handle: HandleView,
    pub properties: HandleView,
}

impl SpeechConfigView {
    /// Each owner holds a resource of its own kind.
    pub open spec fn well_formed(self) -> bool {
        &&& self.handle.kind == ResourceKind::SpeechConfig
        &&& self.properties.kind == ResourceKind::PropertyBag
    }

    /// The releases that give back all that the configuration owns: the
    /// configuration first, then its property bag.
    pub open spec fn pending(self) -> Seq<Resource> {
        self.handle.pending() + self.properties.pending()
    }

    /// The configuration after a release.
    pub open spec fn released(self) -> SpeechConfigView {
        SpeechConfigView {
            handle: self.handle.released(),
            properties: self.properties.released(),
        }
    }
}

impl View for SpeechConfig {
    type V = SpeechConfigView;

    closed spec fn view(&self) -> SpeechConfigView {
        SpeechConfigView { handle: self.handle@, properties: self.properties@ }
    }
}

/// A speech configuration in the making.
#[derive(Debug)]
pub enum SpeechConfigSetup {
    /// Waiting for the engine to create the configuration.
    Creating,
    /// Waiting for the property bag of the configuration.
    FetchingProperties { handle: SmartHandle },
    /// Waiting for the engine to store the language marker.
    Tagging { handle: SmartHandle, properties: PropertyCollection },
}

/// What a [`SpeechConfigSetup`] owns at its stage.
pub enum SpeechConfigSetupView {
    Creating,
    FetchingProperties { handle: HandleView },
    Tagging { handle: HandleView, properties: HandleView },
}

impl View for SpeechConfigSetup {
    type V = SpeechConfigSetupView;

    open spec fn view(&self) -> SpeechConfigSetupView {
        match *self {
            SpeechConfigSetup::Creating => SpeechConfigSetupView::Creating,
            SpeechConfigSetup::FetchingProperties { handle } => {
                SpeechConfigSetupView::FetchingProperties { handle: handle@ }
            },
            SpeechConfigSetup::Tagging { handle, properties } => {
                SpeechConfigSetupView::Tagging { handle: handle@, properties: properties@ }
            },
        }
    }
}

impl SpeechConfigSetupView {
    /// Each owner holds a resource of its own kind, and holds it still: a
    /// setup waits for an answer only while all it has made so far is live.
    pub open spec fn well_formed(self) -> bool {
        match self {
            SpeechConfigSetupView::Creating => true,
            SpeechConfigSetupView::FetchingProperties { handle } => {
                handle.kind == ResourceKind::SpeechConfig && handle.is_live()
            },
            SpeechConfigSetupView::Tagging { handle, properties } => {
                &&& handle.kind == ResourceKind::SpeechConfig
                &&& handle.is_live()
                &&& properties.kind == ResourceKind::PropertyBag
                &&& properties.is_live()
            },
        }
    }

    /// The releases that give back all that the setup owns.
    pub open spec fn pending(self) -> Seq<Resource> {
        match self {
            SpeechConfigSetupView::Creating => Seq::empty(),
            SpeechConfigSetupView::FetchingProperties { handle } => handle.pending(),
            SpeechConfigSetupView::Tagging { handle, properties } => {
                handle.pending() + properties.pending()
            },
        }
    }

    /// The step taken when the engine answers the awaited call with `status`
    /// and, where the call gives one, `answer`.
    ///
    /// A status other than success ends the setup with the engine's error. A
    /// successful answer without a handle ends it too: nothing can be asked of
    /// the empty handle. Either way the setup releases what it owns. Once the
    /// marker is stored the configuration is ready.
    pub open spec fn advance(self, status: usize, answer: Handle) -> StepView<
        SpeechConfigSetupView,
        SpeechConfigView,
    > {
        match self {
            SpeechConfigSetupView::Creating => {
                let handle = SpeechConfig::of_handle(answer);
                if status != SPX_NOERROR {
                    StepView::Failed(
                        FailureView {
                            error: Error::NativeError {
                                code: status,
                                context: "SpeechConfig::from_subscription error",
                            },
                            releases: Seq::empty(),
                        },
                    )
                } else if !handle.is_live() {
                    StepView::Failed(
                        FailureView { error: Error::AlreadyReleased, releases: Seq::empty() },
                    )
                } else {
                    StepView::Call(
                        SpeechConfigSetupView::FetchingProperties { handle },
                        NativeCallView::SpeechConfigPropertyBag { config: answer },
                    )
                }
            },
            SpeechConfigSetupView::FetchingProperties { handle } => {
                let properties = PropertyCollection::of_bag(answer);
                if status != SPX_NOERROR {
                    StepView::Failed(
                        FailureView {
                            error: Error::NativeError {
                                code: status,
                                context: "SpeechConfig::from_handle error",
                            },
                            releases: handle.pending(),
                        },
                    )
                } else {
                    match PropertyCollection::set_call(
                        properties,
                        SYSTEM_LANGUAGE_PROPERTY@,
                        SYSTEM_LANGUAGE@,
                    ) {
                        Ok(call) => StepView::Call(
                            SpeechConfigSetupView::Tagging { handle, properties },
                            call,
                        ),
                        Err(error) => StepView::Failed(
                            FailureView {
                                error,
                                releases: handle.pending() + properties.pending(),
                            },
                        ),
                    }
                }
            },
            SpeechConfigSetupView::Tagging { handle, properties } => {
                if status != SPX_NOERROR {
                    StepView::Failed(
                        FailureView {
                            error: Error::NativeError {
                                code: status,
                                context: "PropertyCollection::set_property_by_string error",
                            },
                            releases: handle.pending() + properties.pending(),
                        },
                    )
                } else {
                    StepView::Ready(SpeechConfigView { handle, properties })
                }
            },
        }
    }
}

impl SpeechConfig {
    /// The account of a setup that stands at `step`, is driven on by the
    /// engine's answers in order, and is then given up: a setup that still
    /// waits is abandoned, a configuration that is ready is released.
    pub open spec fn ledger(
        step: StepView<SpeechConfigSetupView, SpeechConfigView>,
        answers: Seq<Answer>,
    ) -> Ledger
        decreases answers.len(),
    {
        match step {
            StepView::Call(setup, call) => {
                if answers.len() == 0 {
                    Ledger { created: Seq::empty(), released: setup.pending() }
                } else {
                    let answer = answers[0];
                    let rest = Self::ledger(
                        setup.advance(answer.status, answer.handle),
                        answers.drop_first(),
                    );
                    Ledger {
                        created: call.created(answer.status, answer.handle) + rest.created,
                        released: rest.released,
                    }
                }
            },
            StepView::Ready(config) => Ledger { created: Seq::empty(), released: config.pending() },
            StepView::Failed(failure) => Ledger {
                created: Seq::empty(),
                released: failure.releases,
            },
        }
    }

    /// The owner of the speech configuration `handle`.
    pub open spec fn of_handle(handle: Handle) -> HandleView {
        HandleView { label: "SpeechConfig"@, handle, kind: ResourceKind::SpeechConfig }
    }

    /// The first step of making a configuration from a subscription key and a
    /// region: the call that creates it, unless one of the two cannot cross to
    /// the engine.
    pub open spec fn subscription_step(subscription: Seq<char>, region: Seq<char>) -> StepView<
        SpeechConfigSetupView,
        SpeechConfigView,
    > {
        if !is_c_safe(subscription) || !is_c_safe(region) {
            StepView::Failed(
                FailureView { error: Error::InvalidArgument, releases: Seq::empty() },
            )
        } else {
            StepView::Call(
                SpeechConfigSetupView::Creating,
                NativeCallView::SpeechConfigFromSubscription {
                    subscription: c_string(subscription),
                    region: c_string(region),
                },
            )
        }
    }

    /// Begins a configuration for the given subscription key and region. A key
    /// or region with a zero byte is refused before any call is made.
    pub fn from_subscription(subscription: &str, region: &str) -> (step: Step<
        SpeechConfigSetup,
        SpeechConfig,
    >)
        ensures
            step@ == Self::subscription_step(subscription@, region@),
    {
        let c_subscription = match to_c_string(subscription) {
            Ok(bytes) => bytes,
            Err(error) => { return Step::Failed(Failure { error, releases: Vec::new() }); },
        };
        let c_region = match to_c_string(region) {
            Ok(bytes) => bytes,
            Err(error) => { return Step::Failed(Failure { error, releases: Vec::new() }); },
        };
        Step::Call(
            SpeechConfigSetup::Creating,
            NativeCall::SpeechConfigFromSubscription {
                subscription: c_subscription,
                region: c_region,
            },
        )
    }

    /// Name of the owning type, for diagnostics.
    pub fn label(&self) -> (label: &'static str)
        ensures
            label@ == self@.handle.label,
    {
        self.handle.label()
    }

    /// The configuration's handle, for passing into a call.
    pub fn get_handle(&self) -> (handle: Handle)
        ensures
            handle == self@.handle.handle,
    {
        self.handle.inner()
    }

    /// The configuration's properties.
    pub fn properties(&self) -> (properties: &PropertyCollection)
        ensures
            properties@ == self@.properties,
    {
        &self.properties
    }

    /// Gives up the configuration and its property bag. The releases to
    /// perform come back the first time; later calls give none.
    pub fn release(&mut self) -> (releases: Vec<Resource>)
        ensures
            releases@ == old(self)@.pending(),
            final(self)@ == old(self)@.released(),
    {
        let mut releases: Vec<Resource> = Vec::new();
        push_release(&mut releases, self.handle.release());
        push_release(&mut releases, self.properties.release());
        releases
    }
}

impl SpeechConfigSetup {
    /// Takes the engine's answer to the awaited call and goes on. `answer` is
    /// the handle that came with the status; the answer to the store of the
    /// marker has none, and any value will do there.
    pub fn advance(self, status: usize, answer: Handle) -> (step: Step<
        SpeechConfigSetup,
        SpeechConfig,
    >)
        ensures
            step@ == self@.advance(status, answer),
    {
        match self {
            SpeechConfigSetup::Creating => {
                match convert_err(status, "SpeechConfig::from_subscription error") {
                    Ok(()) => {},
                    Err(error) => { return Step::Failed(Failure { error, releases: Vec::new() }); },
                }
                let handle = SmartHandle::create("SpeechConfig", answer, ResourceKind::SpeechConfig);
                if !handle.is_live() {
                    return Step::Failed(
                        Failure { error: Error::AlreadyReleased, releases: Vec::new() },
                    );
                }
                Step::Call(
                    SpeechConfigSetup::FetchingProperties { handle },
                    NativeCall::SpeechConfigPropertyBag { config: answer },
                )
            },
            SpeechConfigSetup::FetchingProperties { handle } => {
                let mut handle = handle;
                match convert_err(status, "SpeechConfig::from_handle error") {
                    Ok(()) => {},
                    Err(error) => {
                        let mut releases: Vec<Resource> = Vec::new();
                        push_release(&mut releases, handle.release());
                        return Step::Failed(Failure { error, releases });
                    },
                }
                let mut properties = PropertyCollection::from_handle(answer);
                match properties.set_property_by_string_call(
                    SYSTEM_LANGUAGE_PROPERTY,
                    SYSTEM_LANGUAGE,
                ) {
                    Ok(call) => Step::Call(SpeechConfigSetup::Tagging { handle, properties }, call),
                    Err(error) => {
                        let mut releases: Vec<Resource> = Vec::new();
                        push_release(&mut releases, handle.release());
                        push_release(&mut releases, properties.release());
                        Step::Failed(Failure { error, releases })
                    },
                }
            },
            SpeechConfigSetup::Tagging { handle, properties } => {
                let mut handle = handle;
                let mut properties = properties;
                match properties.set_property_by_string(status) {
                    Ok(()) => Step::Ready(SpeechConfig { handle, properties }),
                    Err(error) => {
                        let mut releases: Vec<Resource> = Vec::new();
                        push_release(&mut releases, handle.release());
                        push_release(&mut releases, properties.release());
                        Step::Failed(Failure { error, releases })
                    },
                }
            },
        }
    }

    /// Abandons the setup: the releases that give back what it owns.
    pub fn release(self) -> (releases: Vec<Resource>)
        ensures
            releases@ == self@.pending(),
    {
        let mut releases: Vec<Resource> = Vec::new();
        match self {
            SpeechConfigSetup::Creating => {},
            SpeechConfigSetup::FetchingProperties { handle } => {
                let mut handle = handle;
                push_release(&mut releases, handle.release());
            },
            SpeechConfigSetup::Tagging { handle, properties } => {
                let mut handle = handle;
                let mut properties = properties;
                push_release(&mut releases, handle.release());
                push_release(&mut releases, properties.release());
            },
        }
        releases
    }
}

/// The marker's name and value can cross to the engine.
pub proof fn lemma_marker_crosses()
    ensures
        is_c_safe(SYSTEM_LANGUAGE_PROPERTY@),
        is_c_safe(SYSTEM_LANGUAGE@),
{
    reveal_strlit("SPEECHSDK-SPEECH-CONFIG-SYSTEM-LANGUAGE");
    reveal_strlit("Rust");
    lemma_c_safe_chars(SYSTEM_LANGUAGE_PROPERTY@);
    lemma_c_safe_chars(SYSTEM_LANGUAGE@);
}

/// Once the engine has handed out the property bag, the setup stores the
/// marker in it; only an answer without a bag ends the setup there.
pub proof fn lemma_bag_is_tagged(handle: HandleView, status: usize, answer: Handle)
    requires
        status == SPX_NOERROR,
    ensures
        answer != EMPTY_HANDLE ==> (SpeechConfigSetupView::FetchingProperties { handle }).advance(
            status,
            answer,
        ) == StepView::<SpeechConfigSetupView, SpeechConfigView>::Call(
            SpeechConfigSetupView::Tagging { handle, properties: PropertyCollection::of_bag(answer) },
            NativeCallView::PropertySetString {
                bag: answer,
                name: c_string(SYSTEM_LANGUAGE_PROPERTY@),
                value: c_string(SYSTEM_LANGUAGE@),
            },
        ),
        answer == EMPTY_HANDLE ==> (SpeechConfigSetupView::FetchingProperties { handle }).advance(
            status,
            answer,
        ) == StepView::<SpeechConfigSetupView, SpeechConfigView>::Failed(
            FailureView { error: Error::AlreadyReleased, releases: handle.pending() },
        ),
{
    lemma_marker_crosses();
    assert(handle.pending() + PropertyCollection::of_bag(EMPTY_HANDLE).pending()
        =~= handle.pending());
}

impl SpeechConfigSetupView {
    /// `call` is the call whose answer the setup waits for.
    pub open spec fn awaits(self, call: NativeCallView) -> bool {
        match self {
            SpeechConfigSetupView::Creating => {
                call is SpeechConfigFromSubscription
            },
            SpeechConfigSetupView::FetchingProperties { handle } => {
                call == (NativeCallView::SpeechConfigPropertyBag { config: handle.handle })
            },
            SpeechConfigSetupView::Tagging { handle, properties } => {
                call is PropertySetString
            },
        }
    }
}

/// Every step of a setup hands out the call that the next state waits for.
pub proof fn lemma_config_setup_awaits_its_call(
    setup: SpeechConfigSetupView,
    status: usize,
    answer: Handle,
)
    ensures
        setup.advance(status, answer) matches StepView::Call(next, call) ==> next.awaits(call),
{
}

/// A setup holds each resource under its own kind from the first call to the
/// finished configuration, and a configuration that is ready holds a live
/// handle and a live property bag.
pub proof fn lemma_config_setup_stays_well_formed(
    subscription: Seq<char>,
    region: Seq<char>,
    setup: SpeechConfigSetupView,
    status: usize,
    answer: Handle,
)
    ensures
        SpeechConfig::subscription_step(subscription, region) matches StepView::Call(first, _)
            ==> first.well_formed(),
        setup.well_formed() ==> match setup.advance(status, answer) {
            StepView::Call(next, _) => next.well_formed(),
            StepView::Ready(config) => {
                &&& config.well_formed()
                &&& config.handle.is_live()
                &&& config.properties.is_live()
            },
            StepView::Failed(_) => true,
        },
{
}

/// A setup gives back all that the engine makes for it: however the engine
/// answers and wherever the setup ends or is abandoned, the releases ordered
/// are what the setup owned, followed by what was made from then on, each
/// resource once.
pub proof fn lemma_config_setup_leaks_nothing(
    setup: SpeechConfigSetupView,
    call: NativeCallView,
    answers: Seq<Answer>,
)
    requires
        setup.awaits(call),
    ensures
        ({
            let ledger = SpeechConfig::ledger(StepView::Call(setup, call), answers);
            ledger.released == setup.pending() + ledger.created
        }),
    decreases answers.len(),
{
    if answers.len() > 0 {
        let answer = answers[0];
        let next = setup.advance(answer.status, answer.handle);
        let rest = SpeechConfig::ledger(next, answers.drop_first());
        match next {
            StepView::Call(waiting, next_call) => {
                lemma_config_setup_awaits_its_call(setup, answer.status, answer.handle);
                lemma_config_setup_leaks_nothing(waiting, next_call, answers.drop_first());
                assert(waiting.pending() == setup.pending() + call.created(
                    answer.status,
                    answer.handle,
                ));
            },
            StepView::Ready(config) => {
                assert(rest.released == setup.pending());
            },
            StepView::Failed(failure) => {
                assert(rest.released == setup.pending() + call.created(
                    answer.status,
                    answer.handle,
                ));
            },
        }
    }
}

/// Making a configuration and releasing it leaks nothing and releases nothing
/// twice: for every key and region, whatever the engine answers and wherever
/// the making ends, the releases ordered are exactly the resources that the
/// engine made, in the order in which it made them.
pub proof fn lemma_from_subscription_leaks_nothing(
    subscription: Seq<char>,
    region: Seq<char>,
    answers: Seq<Answer>,
)
    ensures
        ({
            let ledger = SpeechConfig::ledger(
                SpeechConfig::subscription_step(subscription, region),
                answers,
            );
            ledger.released == ledger.created
        }),
{
    match SpeechConfig::subscription_step(subscription, region) {
        StepView::Call(setup, call) => {
            lemma_config_setup_leaks_nothing(setup, call, answers);
            assert(setup.pending() == Seq::<Resource>::empty());
        },
        _ => {},
    }
}

/// A configuration that has been released has nothing left to release.
pub proof fn lemma_config_released_once(config: SpeechConfigView)
    ensures
        config.released().pending() == Seq::<Resource>::empty(),
        config.released().released() == config.released(),
{
}

/// No step of a setup asks anything of the empty handle.
pub proof fn lemma_config_setup_names_live_handles(
    subscription: Seq<char>,
    region: Seq<char>,
    setup: SpeechConfigSetupView,
    status: usize,
    answer: Handle,
)
    ensures
        SpeechConfig::subscription_step(subscription, region) matches StepView::Call(_, call)
            ==> call.names_live_handles(),
        setup.advance(status, answer) matches StepView::Call(_, call)
            ==> call.names_live_handles(),
{
}

} // verus!
