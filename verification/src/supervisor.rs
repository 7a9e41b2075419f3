//! The acquisition–accumulation–publish control loop.
//!
//! The supervisor is an event-driven state machine: the surrounding runtime
//! performs the outside work (connecting the wireless link, creating the
//! broker client, starting and polling the sampling driver, publishing,
//! restarting the device) and reports each outcome as an [`Event`]; the
//! supervisor decides everything and answers with the next [`Action`].
//!
//! Startup walks `Init -> AwaitNetwork -> AwaitPublisher -> AwaitSampler ->
//! Running`; any startup failure, any publish failure and a broker
//! disconnect are fatal and demand exactly one device restart, after which
//! the machine is `Halted` and does nothing further. A failed poll is
//! transient: the cycle is skipped with no state touched, and polling
//! continues.
use vstd::prelude::*;
use crate::accumulator::{AccModel, AmplitudeAccumulator};
use crate::config::Config;
use crate::payload::{render_micros, spec_payload};
use crate::smoother::{SmModel, Smoother};

verus! {

/// Largest number of samples one poll may hand over.
pub const MAX_BATCH: usize = 100;

/// Where the supervisor stands.
#[derive(Clone, Copy, Debug, PartialEq, Eq, Structural)]
pub enum Phase {
    /// Not started yet.
    Init,
    /// Waiting for the wireless link to come up.
    AwaitNetwork,
    /// Waiting for the broker client to be ready.
    AwaitPublisher,
    /// Waiting for the sampling driver to start.
    AwaitSampler,
    /// The steady poll/accumulate/smooth/publish cycle.
    Running,
    /// Waiting for the outcome of a publish call.
    AwaitAck,
    /// A fatal error was answered with the recovery action; nothing runs
    /// any more.
    Halted,
}

/// What the runtime observed and reports to the supervisor.
#[derive(Debug)]
pub enum Event {
    /// Begin startup.
    Start,
    /// The wireless link is up with an address.
    NetworkUp,
    /// Connecting the wireless link failed.
    NetworkFailed,
    /// The broker client is ready.
    PublisherReady,
    /// Creating the broker client failed.
    PublisherFailed,
    /// The sampling driver is running.
    SamplerStarted,
    /// The sampling driver failed to initialize.
    SamplerFailed,
    /// One poll completed, yielding these raw samples (possibly none).
    SamplesRead(Vec<u32>),
    /// One poll returned a genuine error (not merely "no data").
    PollFailed,
    /// The broker acknowledged the publish.
    PublishAcked,
    /// The publish call failed.
    PublishFailed,
    /// The broker session dropped.
    BrokerDisconnected,
}

/// What the runtime must do next.
#[derive(Debug)]
pub enum Action {
    /// Connect the wireless link.
    ConnectNetwork,
    /// Create the broker client.
    StartPublisher,
    /// Start the sampling driver.
    StartSampler,
    /// Sleep the fixed cycle interval, then poll the sampling driver.
    Poll,
    /// Publish this payload to the configured topic, at least once.
    Publish(String),
    /// Invoke the fatal-recovery action: restart the device.
    Restart,
    /// Nothing; the machine is halted.
    Idle,
}

/// The delivery guarantee requested for a publish.
#[derive(Clone, Copy, Debug, PartialEq, Eq, Structural)]
pub enum DeliveryQuality {
    /// Fire and forget; the reading may be lost.
    AtMostOnce,
    /// Acknowledged; the reading may be duplicated but not lost.
    AtLeastOnce,
    /// Acknowledged and deduplicated.
    ExactlyOnce,
}

/// The delivery quality of every publish this node makes: losing a reading
/// is worse than occasionally duplicating one, so it is at-least-once,
/// never fire-and-forget.
pub fn publish_quality() -> (r: DeliveryQuality)
    ensures
        r is AtLeastOnce,
{
    DeliveryQuality::AtLeastOnce
}

/// Model of an event: samples become a sequence of their values.
pub enum EventModel {
    Start,
    NetworkUp,
    NetworkFailed,
    PublisherReady,
    PublisherFailed,
    SamplerStarted,
    SamplerFailed,
    SamplesRead(Seq<int>),
    PollFailed,
    PublishAcked,
    PublishFailed,
    BrokerDisconnected,
}

/// Model of an action: a publish carries the payload text.
pub enum ActionModel {
    ConnectNetwork,
    StartPublisher,
    StartSampler,
    Poll,
    Publish(Seq<char>),
    Restart,
    Idle,
}

impl View for Event {
    type V = EventModel;

    open spec fn view(&self) -> EventModel {
        match self {
            Event::Start => EventModel::Start,
            Event::NetworkUp => EventModel::NetworkUp,
            Event::NetworkFailed => EventModel::NetworkFailed,
            Event::PublisherReady => EventModel::PublisherReady,
            Event::PublisherFailed => EventModel::PublisherFailed,
            Event::SamplerStarted => EventModel::SamplerStarted,
            Event::SamplerFailed => EventModel::SamplerFailed,
            Event::SamplesRead(v) => EventModel::SamplesRead(
                v@.map_values(|x: u32| x as int),
            ),
            Event::PollFailed => EventModel::PollFailed,
            Event::PublishAcked => EventModel::PublishAcked,
            Event::PublishFailed => EventModel::PublishFailed,
            Event::BrokerDisconnected => EventModel::BrokerDisconnected,
        }
    }
}

impl View for Action {
    type V = ActionModel;

    open spec fn view(&self) -> ActionModel {
        match self {
            Action::ConnectNetwork => ActionModel::ConnectNetwork,
            Action::StartPublisher => ActionModel::StartPublisher,
            Action::StartSampler => ActionModel::StartSampler,
            Action::Poll => ActionModel::Poll,
            Action::Publish(p) => ActionModel::Publish(p@),
            Action::Restart => ActionModel::Restart,
            Action::Idle => ActionModel::Idle,
        }
    }
}

/// Model of the supervisor: its phase and the models of the two
/// measurement components.
pub struct SupModel {
    pub phase: Phase,
    pub acc: AccModel,
    pub sm: SmModel,
}

/// One cycle of the running loop on a successful poll: feed every sample;
/// if that completes the window, smooth the window's amplitude, publish the
/// smoothed value and reset the accumulator; otherwise just keep polling.
pub open spec fn spec_cycle(s: SupModel, samples: Seq<int>) -> (SupModel, ActionModel) {
    let fed = s.acc.feed_all(samples);
    match fed.amplitude() {
        Some(a) => {
            let sm2 = s.sm.feed1(a);
            (
                SupModel { phase: Phase::AwaitAck, acc: fed.reset(), sm: sm2 },
                ActionModel::Publish(spec_payload(sm2.value as nat)),
            )
        },
        None => (SupModel { phase: Phase::Running, acc: fed, sm: s.sm }, ActionModel::Poll),
    }
}

/// The full transition relation of the supervisor.
pub open spec fn spec_step(s: SupModel, e: EventModel) -> (SupModel, ActionModel) {
    match (s.phase, e) {
        (Phase::Init, EventModel::Start)
            => (SupModel { phase: Phase::AwaitNetwork, ..s }, ActionModel::ConnectNetwork),
        (Phase::AwaitNetwork, EventModel::NetworkUp)
            => (SupModel { phase: Phase::AwaitPublisher, ..s }, ActionModel::StartPublisher),
        (Phase::AwaitNetwork, EventModel::NetworkFailed)
            => (SupModel { phase: Phase::Halted, ..s }, ActionModel::Restart),
        (Phase::AwaitPublisher, EventModel::PublisherReady)
            => (SupModel { phase: Phase::AwaitSampler, ..s }, ActionModel::StartSampler),
        (Phase::AwaitPublisher, EventModel::PublisherFailed)
            => (SupModel { phase: Phase::Halted, ..s }, ActionModel::Restart),
        (Phase::AwaitSampler, EventModel::SamplerStarted)
            => (SupModel { phase: Phase::Running, ..s }, ActionModel::Poll),
        (Phase::AwaitSampler, EventModel::SamplerFailed)
            => (SupModel { phase: Phase::Halted, ..s }, ActionModel::Restart),
        (Phase::Running, EventModel::SamplesRead(samples)) => spec_cycle(s, samples),
        (Phase::Running, EventModel::PollFailed) => (s, ActionModel::Poll),
        (Phase::AwaitAck, EventModel::PublishAcked)
            => (SupModel { phase: Phase::Running, ..s }, ActionModel::Poll),
        (Phase::AwaitAck, EventModel::PublishFailed)
            => (SupModel { phase: Phase::Halted, ..s }, ActionModel::Restart),
        (Phase::Halted, _) => (s, ActionModel::Idle),
        (_, EventModel::BrokerDisconnected)
            => (SupModel { phase: Phase::Halted, ..s }, ActionModel::Restart),
        _ => (s, ActionModel::Idle),
    }
}

/// Orchestrates the whole node: startup, the measurement cycle, and the
/// fatal-recovery policy.
pub struct SupervisorLoop {
    config: Config,
    phase: Phase,
    acc: AmplitudeAccumulator,
    smoother: Smoother,
}

impl View for SupervisorLoop {
    type V = SupModel;

    closed spec fn view(&self) -> SupModel {
        SupModel { phase: self.phase, acc: self.acc@, sm: self.smoother@ }
    }
}

impl SupervisorLoop {
    /// The device configuration, read-only after construction.
    pub closed spec fn spec_config(self) -> Config {
        self.config
    }

    /// Read access to the device configuration.
    pub fn config(&self) -> (r: &Config)
        ensures
            r == self.spec_config(),
    {
        &self.config
    }

    /// Structural invariant: the components are well formed and, outside a
    /// completed window, the accumulator stays strictly short of its
    /// window — every complete window is consumed and reset within the
    /// cycle that completed it.
    pub closed spec fn wf(self) -> bool {
        &&& self.acc.wf()
        &&& self.smoother.wf()
        &&& self.acc@.count < self.acc@.window
    }

    pub fn new(config: Config) -> (r: Self)
        requires
            config.wf(),
        ensures
            r.wf(),
            r@.phase is Init,
            r@.acc == AccModel::fresh(config.window_size as int),
            r@.sm == SmModel::fresh(config.smoothing_num as int, config.smoothing_den as int),
            r.spec_config() == config,
    {
        let acc = AmplitudeAccumulator::new(config.window_size);
        let smoother = Smoother::new(config.smoothing_num, config.smoothing_den);
        SupervisorLoop { config, phase: Phase::Init, acc, smoother }
    }

    /// One cycle of the running loop; see [`spec_cycle`].
    fn cycle(&mut self, samples: Vec<u32>) -> (r: Action)
        requires
            old(self).wf(),
            old(self)@.phase is Running,
            samples@.len() <= MAX_BATCH,
        ensures
            final(self).wf(),
            (final(self)@, r@) == spec_cycle(
                old(self)@,
                samples@.map_values(|x: u32| x as int),
            ),
            final(self).spec_config() == old(self).spec_config(),
    {
        let ghost acc0 = self.acc@;
        let ghost sseq = samples@.map_values(|x: u32| x as int);
        let n = samples.len();
        let mut i: usize = 0;
        while i < n
            invariant
                i <= n,
                n == samples@.len() <= MAX_BATCH,
                sseq == samples@.map_values(|x: u32| x as int),
                self.acc.wf(),
                self.acc@ == acc0.feed_all(sseq.take(i as int)),
                self.acc@.count == acc0.count + i,
                self.acc@.window == acc0.window,
                acc0.count < acc0.window <= crate::config::MAX_WINDOW,
                self.smoother == old(self).smoother,
                self.phase == old(self).phase,
                self.spec_config() == old(self).spec_config(),
            decreases n - i,
        {
            self.acc.feed(samples[i]);
            proof {
                assert(sseq.take(i + 1).drop_last() =~= sseq.take(i as int));
                assert(sseq.take(i + 1).last() == sseq[i as int]);
            }
            i = i + 1;
        }
        proof {
            assert(sseq.take(n as int) =~= sseq);
        }
        match self.acc.amplitude() {
            Some(a) => {
                self.smoother.feed(a);
                let smoothed = self.smoother.value();
                let text = render_micros(smoothed);
                self.acc.reset();
                self.phase = Phase::AwaitAck;
                Action::Publish(text)
            },
            None => Action::Poll,
        }
    }

    /// Advances the supervisor by one observed event and says what the
    /// runtime must do next; the whole transition is [`spec_step`].
    pub fn step(&mut self, e: Event) -> (r: Action)
        requires
            old(self).wf(),
            e matches Event::SamplesRead(v) ==> v@.len() <= MAX_BATCH,
        ensures
            final(self).wf(),
            (final(self)@, r@) == spec_step(old(self)@, e@),
            final(self).spec_config() == old(self).spec_config(),
    {
        match (self.phase, e) {
            (Phase::Init, Event::Start) => {
                self.phase = Phase::AwaitNetwork;
                Action::ConnectNetwork
            },
            (Phase::AwaitNetwork, Event::NetworkUp) => {
                self.phase = Phase::AwaitPublisher;
                Action::StartPublisher
            },
            (Phase::AwaitNetwork, Event::NetworkFailed) => {
                self.phase = Phase::Halted;
                Action::Restart
            },
            (Phase::AwaitPublisher, Event::PublisherReady) => {
                self.phase = Phase::AwaitSampler;
                Action::StartSampler
            },
            (Phase::AwaitPublisher, Event::PublisherFailed) => {
                self.phase = Phase::Halted;
                Action::Restart
            },
            (Phase::AwaitSampler, Event::SamplerStarted) => {
                self.phase = Phase::Running;
                Action::Poll
            },
            (Phase::AwaitSampler, Event::SamplerFailed) => {
                self.phase = Phase::Halted;
                Action::Restart
            },
            (Phase::Running, Event::SamplesRead(samples)) => self.cycle(samples),
            (Phase::Running, Event::PollFailed) => Action::Poll,
            (Phase::AwaitAck, Event::PublishAcked) => {
                self.phase = Phase::Running;
                Action::Poll
            },
            (Phase::AwaitAck, Event::PublishFailed) => {
                self.phase = Phase::Halted;
                Action::Restart
            },
            (Phase::Halted, _) => Action::Idle,
            (_, Event::BrokerDisconnected) => {
                self.phase = Phase::Halted;
                Action::Restart
            },
            _ => Action::Idle,
        }
    }
}

/// Fatal-path law: a publish failure is answered with exactly one recovery
/// action; from the halted state that it leaves behind, no event changes
/// the state or produces any further action — no extra cycle, no second
/// restart.
pub proof fn lemma_fatal_single_action(s: SupModel, after: EventModel)
    requires
        s.phase is AwaitAck,
    ensures
        spec_step(s, EventModel::PublishFailed).0.phase is Halted,
        spec_step(s, EventModel::PublishFailed).1 is Restart,
        ({
            let halted = spec_step(s, EventModel::PublishFailed).0;
            spec_step(halted, after).0 == halted && spec_step(halted, after).1 is Idle
        }),
{
}

/// Transient-path law: a failed poll, and equally an empty one, leaves the
/// accumulator and the smoother untouched and the loop goes on to the next
/// cycle.
pub proof fn lemma_transient_continuation(s: SupModel)
    requires
        s.phase is Running,
        s.acc.count < s.acc.window,
    ensures
        spec_step(s, EventModel::PollFailed).0 == s,
        spec_step(s, EventModel::PollFailed).1 is Poll,
        spec_step(s, EventModel::SamplesRead(Seq::empty())).0 == s,
        spec_step(s, EventModel::SamplesRead(Seq::empty())).1 is Poll,
{
    assert(s.acc.feed_all(Seq::empty()) == s.acc);
    assert(spec_step(s, EventModel::SamplesRead(Seq::empty())).0 == s);
}

} // verus!
