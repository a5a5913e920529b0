use vstd::prelude::*;
use crate::classify::{classify_all, classify_spec, Classifier, RawInput};
use crate::payload::{Payload, PayloadModel};

verus! {

/// Name of the channel on which payloads reach the foreground layer.
pub open spec fn keypress_channel() -> Seq<char> {
    "keypress"@
}

/// The channel name that every emitted payload goes out on.
pub fn channel() -> (r: &'static str)
    ensures
        r@ == keypress_channel(),
{
    "keypress"
}

/// Where the bridge stands in its life.
#[derive(Clone, Copy, PartialEq, Eq, Debug, Structural)]
pub enum BridgePhase {
    /// Constructed; no capture context has been asked for yet.
    Idle,
    /// The capture context has been asked for; the hook is not yet installed.
    Starting,
    /// The hook is installed and input is classified and emitted.
    Listening,
    /// The hook could not be installed; the bridge stays off for good.
    Disabled,
    /// Listening was cancelled; the bridge stays off for good.
    Stopped,
}

/// Why the capture hook could not be installed.
#[derive(Clone, Copy, PartialEq, Eq, Debug, Structural)]
pub enum CaptureInitError {
    /// The platform refused the permission to observe global input.
    PermissionDenied,
    /// The platform's hook API failed.
    PlatformFailure,
}

/// Why a payload did not reach the foreground layer.
#[derive(Clone, Copy, PartialEq, Eq, Debug, Structural)]
pub enum DeliveryError {
    /// The foreground layer is absent or was torn down.
    ForegroundGone,
    /// The payload could not be marshaled across contexts.
    Marshaling,
}

/// One thing that happens to the bridge.
pub enum Signal {
    /// The application asks the bridge to begin listening.
    Start,
    /// The capture source reports whether its hook was installed.
    HookResult(Result<(), CaptureInitError>),
    /// The capture source observed an input.
    Input(RawInput),
    /// The sink reports the outcome of one `emit`.
    Delivered(Result<(), DeliveryError>),
    /// The application asks the bridge to stop.
    Cancel,
}

/// What the bridge asks its runner to do, abstractly.
pub enum Directive {
    /// Spawn the background capture context and install the hook.
    SpawnCapture,
    /// Emit this payload on the keypress channel.
    Emit(PayloadModel),
    /// Report, once, that the hook could not be installed.
    ReportCaptureFailure(CaptureInitError),
    /// Log that one delivery failed, then carry on.
    LogDeliveryFailure(DeliveryError),
    /// Nothing to do.
    Nothing,
}

/// Abstract state of a [`Bridge`].
pub struct BridgeModel {
    pub phase: BridgePhase,
    pub fallback: Option<Seq<char>>,
}

/// The directive for an observed input while listening.
pub open spec fn input_directive(fallback: Option<Seq<char>>, input: RawInput) -> Directive {
    match classify_spec(fallback, input.mode, input.message) {
        Some(p) => Directive::Emit(p),
        None => Directive::Nothing,
    }
}

/// The bridge's transition function: the next state and the directive.
pub open spec fn step(m: BridgeModel, sig: Signal) -> (BridgeModel, Directive) {
    let stay = (m, Directive::Nothing);
    match sig {
        Signal::Start => if m.phase == BridgePhase::Idle {
            (BridgeModel { phase: BridgePhase::Starting, ..m }, Directive::SpawnCapture)
        } else {
            stay
        },
        Signal::HookResult(res) => if m.phase == BridgePhase::Starting {
            match res {
                Ok(()) => (BridgeModel { phase: BridgePhase::Listening, ..m }, Directive::Nothing),
                Err(e) => (
                    BridgeModel { phase: BridgePhase::Disabled, ..m },
                    Directive::ReportCaptureFailure(e),
                ),
            }
        } else {
            stay
        },
        Signal::Input(input) => if m.phase == BridgePhase::Listening {
            (m, input_directive(m.fallback, input))
        } else {
            stay
        },
        Signal::Delivered(res) => match res {
            Ok(()) => stay,
            Err(e) => (m, Directive::LogDeliveryFailure(e)),
        },
        Signal::Cancel => if m.phase == BridgePhase::Disabled {
            stay
        } else {
            (BridgeModel { phase: BridgePhase::Stopped, ..m }, Directive::Nothing)
        },
    }
}

/// Runs the bridge over a sequence of signals: the final state and one
/// directive per signal, in signal order.
pub open spec fn run(m: BridgeModel, sigs: Seq<Signal>) -> (BridgeModel, Seq<Directive>)
    decreases sigs.len(),
{
    if sigs.len() == 0 {
        (m, Seq::empty())
    } else {
        let (m1, d) = step(m, sigs[0]);
        let (m2, ds) = run(m1, sigs.drop_first());
        (m2, seq![d] + ds)
    }
}

/// What the bridge asks its runner to do.
pub enum BridgeAction {
    /// Spawn the background capture context and install the hook.
    SpawnCapture,
    /// Emit this payload on the keypress channel.
    Emit(Payload),
    /// Report, once, that the hook could not be installed.
    ReportCaptureFailure(CaptureInitError),
    /// Log that one delivery failed, then carry on.
    LogDeliveryFailure(DeliveryError),
    /// Nothing to do.
    Nothing,
}

impl View for BridgeAction {
    type V = Directive;

    open spec fn view(&self) -> Directive {
        match self {
            BridgeAction::SpawnCapture => Directive::SpawnCapture,
            BridgeAction::Emit(p) => Directive::Emit(p@),
            BridgeAction::ReportCaptureFailure(e) => Directive::ReportCaptureFailure(*e),
            BridgeAction::LogDeliveryFailure(e) => Directive::LogDeliveryFailure(*e),
            BridgeAction::Nothing => Directive::Nothing,
        }
    }
}

/// The event bridge between the capture source and the delivery sink.
pub struct Bridge {
    phase: BridgePhase,
    classifier: Classifier,
}

impl View for Bridge {
    type V = BridgeModel;

    closed spec fn view(&self) -> BridgeModel {
        BridgeModel { phase: self.phase, fallback: self.classifier.fallback_model() }
    }
}

impl Bridge {
    /// A bridge that has not started, classifying with `classifier`.
    pub fn new(classifier: Classifier) -> (r: Bridge)
        ensures
            r@ == (BridgeModel { phase: BridgePhase::Idle, fallback: classifier.fallback_model() }),
    {
        Bridge { phase: BridgePhase::Idle, classifier }
    }

    /// The bridge's current phase.
    pub fn phase(&self) -> (r: BridgePhase)
        ensures
            r == self@.phase,
    {
        self.phase
    }

    /// Whether captured input is currently classified and emitted.
    pub fn is_listening(&self) -> (r: bool)
        ensures
            r == (self@.phase == BridgePhase::Listening),
    {
        self.phase == BridgePhase::Listening
    }

    /// Asks the bridge to begin listening. Only the first request, on a
    /// bridge that never started, spawns a capture context.
    pub fn start(&mut self) -> (r: BridgeAction)
        ensures
            (final(self)@, r@) == step(old(self)@, Signal::Start),
    {
        if self.phase == BridgePhase::Idle {
            self.phase = BridgePhase::Starting;
            BridgeAction::SpawnCapture
        } else {
            BridgeAction::Nothing
        }
    }

    /// Takes the capture source's report on installing its hook.
    pub fn hook_result(&mut self, res: Result<(), CaptureInitError>) -> (r: BridgeAction)
        ensures
            (final(self)@, r@) == step(old(self)@, Signal::HookResult(res)),
    {
        if self.phase == BridgePhase::Starting {
            match res {
                Ok(()) => {
                    self.phase = BridgePhase::Listening;
                    BridgeAction::Nothing
                },
                Err(e) => {
                    self.phase = BridgePhase::Disabled;
                    BridgeAction::ReportCaptureFailure(e)
                },
            }
        } else {
            BridgeAction::Nothing
        }
    }

    /// Takes one observed input, as the capture source reports it.
    pub fn on_input(&mut self, mode: &str, message: &str) -> (r: BridgeAction)
        ensures
            (final(self)@, r@) == step(
                old(self)@,
                Signal::Input(RawInput { mode: mode@, message: message@ }),
            ),
    {
        if self.phase == BridgePhase::Listening {
            match self.classifier.classify(mode, message) {
                Some(p) => BridgeAction::Emit(p),
                None => BridgeAction::Nothing,
            }
        } else {
            BridgeAction::Nothing
        }
    }

    /// Takes the outcome of one `emit`. A failure is logged and never
    /// changes the bridge's state.
    pub fn on_delivery(&mut self, res: Result<(), DeliveryError>) -> (r: BridgeAction)
        ensures
            (final(self)@, r@) == step(old(self)@, Signal::Delivered(res)),
    {
        match res {
            Ok(()) => BridgeAction::Nothing,
            Err(e) => BridgeAction::LogDeliveryFailure(e),
        }
    }

    /// Asks the bridge to stop listening; a disabled bridge stays disabled.
    pub fn cancel(&mut self) -> (r: BridgeAction)
        ensures
            (final(self)@, r@) == step(old(self)@, Signal::Cancel),
    {
        if self.phase != BridgePhase::Disabled {
            self.phase = BridgePhase::Stopped;
        }
        BridgeAction::Nothing
    }
}

/// Whether a signal is data flowing through a listening bridge, as opposed to
/// a control signal that starts or stops it.
pub open spec fn is_data(sig: Signal) -> bool {
    sig is Input || sig is Delivered
}

/// The inputs among a sequence of signals, in order.
pub open spec fn inputs_of(sigs: Seq<Signal>) -> Seq<RawInput>
    decreases sigs.len(),
{
    if sigs.len() == 0 {
        Seq::empty()
    } else {
        let rest = inputs_of(sigs.drop_first());
        match sigs[0] {
            Signal::Input(i) => seq![i] + rest,
            _ => rest,
        }
    }
}

/// The payloads that a sequence of directives emits, in order.
pub open spec fn emitted(ds: Seq<Directive>) -> Seq<PayloadModel>
    decreases ds.len(),
{
    if ds.len() == 0 {
        Seq::empty()
    } else {
        let rest = emitted(ds.drop_first());
        match ds[0] {
            Directive::Emit(p) => seq![p] + rest,
            _ => rest,
        }
    }
}

/// How many capture contexts a sequence of directives spawns.
pub open spec fn spawn_count(ds: Seq<Directive>) -> nat
    decreases ds.len(),
{
    if ds.len() == 0 {
        0
    } else {
        (if ds[0] is SpawnCapture {
            1nat
        } else {
            0nat
        }) + spawn_count(ds.drop_first())
    }
}

/// How many capture failures a sequence of directives reports.
pub open spec fn report_count(ds: Seq<Directive>) -> nat
    decreases ds.len(),
{
    if ds.len() == 0 {
        0
    } else {
        (if ds[0] is ReportCaptureFailure {
            1nat
        } else {
            0nat
        }) + report_count(ds.drop_first())
    }
}

/// Whether the bridge may still install its hook.
pub open spec fn before_hook(phase: BridgePhase) -> bool {
    phase == BridgePhase::Idle || phase == BridgePhase::Starting
}

/// A run of delivery failures, one signal per error.
pub open spec fn failures(errs: Seq<DeliveryError>) -> Seq<Signal> {
    Seq::new(errs.len(), |i: int| Signal::Delivered(Err(errs[i])))
}

/// A listening bridge keeps listening through inputs and delivery outcomes,
/// and answers each signal at its own position: the directive for an input
/// stands where the input stood, so the payloads come out exactly in the
/// order in which their inputs were observed.
pub proof fn lemma_delivery_preserves_order(m: BridgeModel, sigs: Seq<Signal>)
    requires
        m.phase == BridgePhase::Listening,
        forall|i: int| 0 <= i < sigs.len() ==> is_data(#[trigger] sigs[i]),
    ensures
        run(m, sigs).0 == m,
        run(m, sigs).1.len() == sigs.len(),
        forall|i: int|
            0 <= i < sigs.len() && (#[trigger] sigs[i]) is Input ==> run(m, sigs).1[i]
                == input_directive(m.fallback, sigs[i]->Input_0),
        emitted(run(m, sigs).1) == classify_all(m.fallback, inputs_of(sigs)),
    decreases sigs.len(),
{
    if sigs.len() > 0 {
        let rest = sigs.drop_first();
        assert forall|i: int| 0 <= i < rest.len() implies is_data(#[trigger] rest[i]) by {
            assert(rest[i] == sigs[i + 1]);
        }
        lemma_delivery_preserves_order(m, rest);
        let (m1, d) = step(m, sigs[0]);
        let ds = run(m, rest).1;
        assert(m1 == m);
        assert((seq![d] + ds).drop_first() =~= ds);
        if let Signal::Input(inp) = sigs[0] {
            let tail = inputs_of(rest);
            assert((seq![inp] + tail).drop_first() =~= tail);
            assert((seq![inp] + tail)[0] == inp);
        }
        assert forall|i: int|
            0 <= i < sigs.len() && (#[trigger] sigs[i]) is Input implies run(m, sigs).1[i]
                == input_directive(m.fallback, sigs[i]->Input_0) by {
            if i > 0 {
                assert(rest[i - 1] == sigs[i]);
            }
        }
    }
}

/// Delivery failures never halt capture: after any number of failed
/// deliveries a listening bridge is unchanged, has logged each failure, and
/// classifies the next input and emits it when it is kept.
pub proof fn lemma_failures_never_halt(m: BridgeModel, errs: Seq<DeliveryError>, input: RawInput)
    requires
        m.phase == BridgePhase::Listening,
    ensures
        ({
            let (m2, ds) = run(m, failures(errs).push(Signal::Input(input)));
            &&& m2 == m
            &&& ds.len() == errs.len() + 1
            &&& forall|i: int| 0 <= i < errs.len() ==> ds[i] == Directive::LogDeliveryFailure(errs[i])
            &&& ds[errs.len() as int] == input_directive(m.fallback, input)
            &&& (classify_spec(m.fallback, input.mode, input.message) matches Some(p)
                ==> ds[errs.len() as int] == Directive::Emit(p))
        }),
{
    let sigs = failures(errs).push(Signal::Input(input));
    assert forall|i: int| 0 <= i < sigs.len() implies is_data(#[trigger] sigs[i]) by {}
    lemma_delivery_preserves_order(m, sigs);
    let ds = run(m, sigs).1;
    assert forall|i: int| 0 <= i < errs.len() implies ds[i] == Directive::LogDeliveryFailure(
        errs[i],
    ) by {
        lemma_data_step_directive(m, sigs, i);
    }
    assert(sigs[errs.len() as int] is Input);
}

/// The directive that a run gives at one position, for a data signal on a
/// listening bridge, is what one step from that state gives.
proof fn lemma_data_step_directive(m: BridgeModel, sigs: Seq<Signal>, i: int)
    requires
        m.phase == BridgePhase::Listening,
        forall|j: int| 0 <= j < sigs.len() ==> is_data(#[trigger] sigs[j]),
        0 <= i < sigs.len(),
    ensures
        run(m, sigs).1[i] == step(m, sigs[i]).1,
    decreases sigs.len(),
{
    let rest = sigs.drop_first();
    assert forall|j: int| 0 <= j < rest.len() implies is_data(#[trigger] rest[j]) by {
        assert(rest[j] == sigs[j + 1]);
    }
    lemma_delivery_preserves_order(m, rest);
    if i > 0 {
        assert(rest[i - 1] == sigs[i]);
        lemma_data_step_directive(m, rest, i - 1);
    }
}

/// At most one capture context per bridge: a bridge that has not started
/// spawns at most one over any sequence of signals, and one that has
/// started never spawns another. Likewise a failure to install the hook is
/// reported at most once, and never after the hook's outcome is known.
pub proof fn lemma_single_capture_context(m: BridgeModel, sigs: Seq<Signal>)
    ensures
        spawn_count(run(m, sigs).1) <= (if m.phase == BridgePhase::Idle {
            1nat
        } else {
            0nat
        }),
        m.phase != BridgePhase::Idle ==> run(m, sigs).0.phase != BridgePhase::Idle,
        report_count(run(m, sigs).1) <= (if before_hook(m.phase) {
            1nat
        } else {
            0nat
        }),
        !before_hook(m.phase) ==> !before_hook(run(m, sigs).0.phase),
    decreases sigs.len(),
{
    if sigs.len() > 0 {
        let (m1, d) = step(m, sigs[0]);
        let rest = sigs.drop_first();
        lemma_single_capture_context(m1, rest);
        let ds = run(m1, rest).1;
        assert((seq![d] + ds).drop_first() =~= ds);
    }
}

} // verus!
