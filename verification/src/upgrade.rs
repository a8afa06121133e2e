//! The upgrade-event bridge.

use vstd::prelude::*;

verus! {

/// The discriminant of an upgrade-event envelope.
#[allow(non_camel_case_types)]
#[derive(Clone, Copy, PartialEq, Eq, Structural, Debug)]
pub enum DISTINST_UPGRADE_TAG {
    ATTEMPTING_REPAIR,
    ATTEMPTING_UPGRADE,
    DPKG_INFO,
    DPKG_ERR,
    UPGRADE_INFO,
    UPGRADE_ERR,
    PACKAGE_PROCESSING,
    PACKAGE_PROGRESS,
    PACKAGE_SETTING_UP,
    PACKAGE_UNPACKING,
    RESUMING_UPGRADE,
}

/// A progress event produced by the upgrade engine.
pub enum UpgradeEvent {
    AttemptingRepair,
    AttemptingUpgrade,
    DpkgInfo(String),
    DpkgErr(String),
    UpgradeInfo(String),
    UpgradeErr(String),
    PackageProcessing(String),
    PackageProgress(u8),
    PackageSettingUp(String),
    PackageUnpacking { package: String, version: String, over: String },
    ResumingUpgrade,
}

/// The fixed-layout projection of one upgrade event.
///
/// Every slot a variant does not define carries the absent sentinel: `None`
/// for the string slots, `0` for the percentage. The string slots borrow from
/// the source event and are valid only as long as it is.
#[derive(Clone, Copy)]
pub struct DistinstUpgradeEvent<'a> {
    /// Which event variant this envelope projects.
    pub tag: DISTINST_UPGRADE_TAG,
    /// Progress percentage; meaningful only for the progress variant.
    pub percent: u8,
    /// First string slot.
    pub str1: Option<&'a str>,
    /// Second string slot.
    pub str2: Option<&'a str>,
    /// Third string slot.
    pub str3: Option<&'a str>,
}

/// The mathematical value of an envelope: its tag, percentage, and the
/// characters of each populated string slot.
pub ghost struct EnvelopeView {
    pub tag: DISTINST_UPGRADE_TAG,
    pub percent: u8,
    pub str1: Option<Seq<char>>,
    pub str2: Option<Seq<char>>,
    pub str3: Option<Seq<char>>,
}

/// A caller-supplied event callback: receives one envelope per upgrade event,
/// synchronously, from inside the upgrade call.
pub trait EventSink {
    /// The envelope values this sink has received, oldest first.
    spec fn delivered(&self) -> Seq<EnvelopeView>;

    /// Receives one envelope. The envelope's string slots are valid only for
    /// the duration of this call; the sink must not retain them.
    fn on_event(&mut self, event: DistinstUpgradeEvent)
        ensures
            final(self).delivered() == old(self).delivered().push(envelope_view(event)),
    ;
}

/// A caller-supplied repair callback: receives each candidate repair target
/// of a resumed upgrade and blocks the upgrade until it returns.
pub trait RepairSink {
    /// The repair targets this sink has received, oldest first.
    spec fn choices(&self) -> Seq<Seq<char>>;

    /// Receives one candidate repair target.
    fn on_repair_choice(&mut self, target: &str)
        ensures
            final(self).choices() == old(self).choices().push(target@),
    ;
}

/// The view of an optional borrowed string slot.
pub open spec fn slot_view(slot: Option<&str>) -> Option<Seq<char>> {
    match slot {
        Some(s) => Some(s@),
        None => None,
    }
}

/// The value an envelope holds.
pub open spec fn envelope_view(e: DistinstUpgradeEvent) -> EnvelopeView {
    EnvelopeView {
        tag: e.tag,
        percent: e.percent,
        str1: slot_view(e.str1),
        str2: slot_view(e.str2),
        str3: slot_view(e.str3),
    }
}

/// The envelope value that an upgrade event maps to: the matching tag, the
/// percentage for the progress variant, and exactly the string slots the
/// variant defines, in the fixed order package, version, destination for the
/// unpacking variant; all unused slots absent.
pub open spec fn envelope_of(e: UpgradeEvent) -> EnvelopeView {
    match e {
        UpgradeEvent::AttemptingRepair => EnvelopeView {
            tag: DISTINST_UPGRADE_TAG::ATTEMPTING_REPAIR,
            percent: 0,
            str1: None,
            str2: None,
            str3: None,
        },
        UpgradeEvent::AttemptingUpgrade => EnvelopeView {
            tag: DISTINST_UPGRADE_TAG::ATTEMPTING_UPGRADE,
            percent: 0,
            str1: None,
            str2: None,
            str3: None,
        },
        UpgradeEvent::DpkgInfo(info) => EnvelopeView {
            tag: DISTINST_UPGRADE_TAG::DPKG_INFO,
            percent: 0,
            str1: Some(info@),
            str2: None,
            str3: None,
        },
        UpgradeEvent::DpkgErr(info) => EnvelopeView {
            tag: DISTINST_UPGRADE_TAG::DPKG_ERR,
            percent: 0,
            str1: Some(info@),
            str2: None,
            str3: None,
        },
        UpgradeEvent::UpgradeInfo(info) => EnvelopeView {
            tag: DISTINST_UPGRADE_TAG::UPGRADE_INFO,
            percent: 0,
            str1: Some(info@),
            str2: None,
            str3: None,
        },
        UpgradeEvent::UpgradeErr(info) => EnvelopeView {
            tag: DISTINST_UPGRADE_TAG::UPGRADE_ERR,
            percent: 0,
            str1: Some(info@),
            str2: None,
            str3: None,
        },
        UpgradeEvent::PackageProcessing(package) => EnvelopeView {
            tag: DISTINST_UPGRADE_TAG::PACKAGE_PROCESSING,
            percent: 0,
            str1: Some(package@),
            str2: None,
            str3: None,
        },
        UpgradeEvent::PackageProgress(percent) => EnvelopeView {
            tag: DISTINST_UPGRADE_TAG::PACKAGE_PROGRESS,
            percent: percent,
            str1: None,
            str2: None,
            str3: None,
        },
        UpgradeEvent::PackageSettingUp(package) => EnvelopeView {
            tag: DISTINST_UPGRADE_TAG::PACKAGE_SETTING_UP,
            percent: 0,
            str1: Some(package@),
            str2: None,
            str3: None,
        },
        UpgradeEvent::PackageUnpacking { package, version, over } => EnvelopeView {
            tag: DISTINST_UPGRADE_TAG::PACKAGE_UNPACKING,
            percent: 0,
            str1: Some(package@),
            str2: Some(version@),
            str3: Some(over@),
        },
        UpgradeEvent::ResumingUpgrade => EnvelopeView {
            tag: DISTINST_UPGRADE_TAG::RESUMING_UPGRADE,
            percent: 0,
            str1: None,
            str2: None,
            str3: None,
        },
    }
}

/// Builds the boundary envelope for one upgrade event.
///
/// Total and pure: the envelope holds the matching tag and exactly the
/// payload slots the variant defines, every other slot absent; its string
/// slots borrow from the event.
pub fn to_envelope<'a>(event: &'a UpgradeEvent) -> (r: DistinstUpgradeEvent<'a>)
    ensures
        envelope_view(r) == envelope_of(*event),
{
    match event {
        UpgradeEvent::AttemptingRepair => DistinstUpgradeEvent {
            tag: DISTINST_UPGRADE_TAG::ATTEMPTING_REPAIR,
            percent: 0,
            str1: None,
            str2: None,
            str3: None,
        },
        UpgradeEvent::AttemptingUpgrade => DistinstUpgradeEvent {
            tag: DISTINST_UPGRADE_TAG::ATTEMPTING_UPGRADE,
            percent: 0,
            str1: None,
            str2: None,
            str3: None,
        },
        UpgradeEvent::DpkgInfo(info) => DistinstUpgradeEvent {
            tag: DISTINST_UPGRADE_TAG::DPKG_INFO,
            percent: 0,
            str1: Some(info.as_str()),
            str2: None,
            str3: None,
        },
        UpgradeEvent::DpkgErr(info) => DistinstUpgradeEvent {
            tag: DISTINST_UPGRADE_TAG::DPKG_ERR,
            percent: 0,
            str1: Some(info.as_str()),
            str2: None,
            str3: None,
        },
        UpgradeEvent::UpgradeInfo(info) => DistinstUpgradeEvent {
            tag: DISTINST_UPGRADE_TAG::UPGRADE_INFO,
            percent: 0,
            str1: Some(info.as_str()),
            str2: None,
            str3: None,
        },
        UpgradeEvent::UpgradeErr(info) => DistinstUpgradeEvent {
            tag: DISTINST_UPGRADE_TAG::UPGRADE_ERR,
            percent: 0,
            str1: Some(info.as_str()),
            str2: None,
            str3: None,
        },
        UpgradeEvent::PackageProcessing(package) => DistinstUpgradeEvent {
            tag: DISTINST_UPGRADE_TAG::PACKAGE_PROCESSING,
            percent: 0,
            str1: Some(package.as_str()),
            str2: None,
            str3: None,
        },
        UpgradeEvent::PackageProgress(percent) => DistinstUpgradeEvent {
            tag: DISTINST_UPGRADE_TAG::PACKAGE_PROGRESS,
            percent: *percent,
            str1: None,
            str2: None,
            str3: None,
        },
        UpgradeEvent::PackageSettingUp(package) => DistinstUpgradeEvent {
            tag: DISTINST_UPGRADE_TAG::PACKAGE_SETTING_UP,
            percent: 0,
            str1: Some(package.as_str()),
            str2: None,
            str3: None,
        },
        UpgradeEvent::PackageUnpacking { package, version, over } => DistinstUpgradeEvent {
            tag: DISTINST_UPGRADE_TAG::PACKAGE_UNPACKING,
            percent: 0,
            str1: Some(package.as_str()),
            str2: Some(version.as_str()),
            str3: Some(over.as_str()),
        },
        UpgradeEvent::ResumingUpgrade => DistinstUpgradeEvent {
            tag: DISTINST_UPGRADE_TAG::RESUMING_UPGRADE,
            percent: 0,
            str1: None,
            str2: None,
            str3: None,
        },
    }
}

/// One signal emitted by the upgrade engine during a resumed upgrade: either
/// a progress event, or a decision point asking for a repair target.
pub enum EngineSignal {
    Event(UpgradeEvent),
    RepairRequest(String),
}

/// The observable behaviour of the upgrade engine over one call: the signals
/// it emits, in order, followed by its terminal outcome, whose error value
/// carries the engine's failure detail.
///
/// This stands for the opaque engine handle at the boundary; the boundary
/// shell owns the null check for it, since a reference to a run cannot be
/// absent here.
pub struct EngineRun {
    /// The signals the engine emits, in order.
    pub signals: Vec<EngineSignal>,
    /// The engine's terminal outcome; the error carries its failure detail.
    pub outcome: Result<(), String>,
}

/// The envelopes that a sequence of upgrade events maps to, in order.
pub open spec fn envelope_seq(events: Seq<UpgradeEvent>) -> Seq<EnvelopeView>
    decreases events.len(),
{
    if events.len() == 0 {
        Seq::empty()
    } else {
        envelope_seq(events.drop_last()).push(envelope_of(events.last()))
    }
}

/// The envelopes delivered for a signal sequence: one per event signal, in
/// order; repair requests deliver none.
pub open spec fn signal_envelopes(signals: Seq<EngineSignal>) -> Seq<EnvelopeView>
    decreases signals.len(),
{
    if signals.len() == 0 {
        Seq::empty()
    } else {
        let rest = signal_envelopes(signals.drop_last());
        match signals.last() {
            EngineSignal::Event(e) => rest.push(envelope_of(e)),
            EngineSignal::RepairRequest(_) => rest,
        }
    }
}

/// The repair targets forwarded for a signal sequence, in order.
pub open spec fn signal_repairs(signals: Seq<EngineSignal>) -> Seq<Seq<char>>
    decreases signals.len(),
{
    if signals.len() == 0 {
        Seq::empty()
    } else {
        let rest = signal_repairs(signals.drop_last());
        match signals.last() {
            EngineSignal::Event(_) => rest,
            EngineSignal::RepairRequest(t) => rest.push(t@),
        }
    }
}

proof fn lemma_envelope_seq_step(events: Seq<UpgradeEvent>, i: int)
    requires
        0 <= i < events.len(),
    ensures
        envelope_seq(events.subrange(0, i + 1)) == envelope_seq(events.subrange(0, i)).push(
            envelope_of(events[i]),
        ),
{
    let pre = events.subrange(0, i + 1);
    assert(pre.drop_last() =~= events.subrange(0, i));
    assert(pre.last() == events[i]);
}

proof fn lemma_signal_step(signals: Seq<EngineSignal>, i: int)
    requires
        0 <= i < signals.len(),
    ensures
        signal_envelopes(signals.subrange(0, i + 1)) == (match signals[i] {
            EngineSignal::Event(e) => signal_envelopes(signals.subrange(0, i)).push(
                envelope_of(e),
            ),
            EngineSignal::RepairRequest(_) => signal_envelopes(signals.subrange(0, i)),
        }),
        signal_repairs(signals.subrange(0, i + 1)) == (match signals[i] {
            EngineSignal::Event(_) => signal_repairs(signals.subrange(0, i)),
            EngineSignal::RepairRequest(t) => signal_repairs(signals.subrange(0, i)).push(t@),
        }),
{
    let pre = signals.subrange(0, i + 1);
    assert(pre.drop_last() =~= signals.subrange(0, i));
    assert(pre.last() == signals[i]);
}

/// An envelope copied out of the borrowed boundary representation, so that a
/// recording sink can keep it after the callback returns.
pub struct RecordedEnvelope {
    /// Which event variant the envelope projected.
    pub tag: DISTINST_UPGRADE_TAG,
    /// Progress percentage; meaningful only for the progress variant.
    pub percent: u8,
    /// First string slot.
    pub str1: Option<String>,
    /// Second string slot.
    pub str2: Option<String>,
    /// Third string slot.
    pub str3: Option<String>,
}

/// The view of an optional owned string slot.
pub open spec fn owned_slot_view(slot: Option<String>) -> Option<Seq<char>> {
    match slot {
        Some(s) => Some(s@),
        None => None,
    }
}

/// The value a recorded envelope holds.
pub open spec fn recorded_view(e: RecordedEnvelope) -> EnvelopeView {
    EnvelopeView {
        tag: e.tag,
        percent: e.percent,
        str1: owned_slot_view(e.str1),
        str2: owned_slot_view(e.str2),
        str3: owned_slot_view(e.str3),
    }
}

/// The values of a sequence of recorded envelopes, in order.
pub open spec fn recorded_views(log: Seq<RecordedEnvelope>) -> Seq<EnvelopeView>
    decreases log.len(),
{
    if log.len() == 0 {
        Seq::empty()
    } else {
        recorded_views(log.drop_last()).push(recorded_view(log.last()))
    }
}

/// Copies a borrowed string slot into an owned one with the same characters.
fn clone_slot(slot: Option<&str>) -> (r: Option<String>)
    ensures
        owned_slot_view(r) == slot_view(slot),
{
    match slot {
        Some(s) => Some(s.to_owned()),
        None => None,
    }
}

/// An event sink that keeps a copy of every envelope it receives, in order.
pub struct RecordingSink {
    /// The envelopes received so far, oldest first.
    pub log: Vec<RecordedEnvelope>,
}

impl EventSink for RecordingSink {
    open spec fn delivered(&self) -> Seq<EnvelopeView> {
        recorded_views(self.log@)
    }

    fn on_event(&mut self, event: DistinstUpgradeEvent) {
        let record = RecordedEnvelope {
            tag: event.tag,
            percent: event.percent,
            str1: clone_slot(event.str1),
            str2: clone_slot(event.str2),
            str3: clone_slot(event.str3),
        };
        proof {
            assert(self.log@.push(record).drop_last() =~= self.log@);
        }
        self.log.push(record);
    }
}

/// A repair sink that keeps a copy of every candidate target it receives.
pub struct RepairRecorder {
    /// The targets received so far, oldest first.
    pub log: Vec<String>,
}

/// The character sequences of a sequence of strings, in order.
pub open spec fn string_views(log: Seq<String>) -> Seq<Seq<char>>
    decreases log.len(),
{
    if log.len() == 0 {
        Seq::empty()
    } else {
        string_views(log.drop_last()).push(log.last()@)
    }
}

impl RepairSink for RepairRecorder {
    open spec fn choices(&self) -> Seq<Seq<char>> {
        string_views(self.log@)
    }

    fn on_repair_choice(&mut self, target: &str) {
        let copy = target.to_owned();
        proof {
            assert(self.log@.push(copy).drop_last() =~= self.log@);
        }
        self.log.push(copy);
    }
}

/// Performs a one-shot upgrade against the engine's observed behaviour.
///
/// Delivers the envelope of every event the engine produced, in order, to
/// `sink`, then collapses the engine's outcome to the boundary status code:
/// `0` on success, `-1` on failure. On failure the returned log record is
/// exactly one copy of the engine's failure detail; on success there is
/// none. The detail is not reconstructable from the status code alone.
pub fn distinst_upgrade<S: EventSink>(
    events: &Vec<UpgradeEvent>,
    outcome: &Result<(), String>,
    sink: &mut S,
) -> (r: (i32, Option<String>))
    ensures
        final(sink).delivered() == old(sink).delivered() + envelope_seq(events@),
        outcome is Ok ==> r.0 == 0 && r.1 is None,
        outcome matches Err(detail) ==> r.0 == -1 && (r.1 matches Some(l) && l@ == detail@),
{
    let ghost base = sink.delivered();
    let mut i: usize = 0;
    while i < events.len()
        invariant
            i <= events.len(),
            sink.delivered() == base + envelope_seq(events@.subrange(0, i as int)),
        decreases events.len() - i,
    {
        let envelope = to_envelope(&events[i]);
        sink.on_event(envelope);
        proof {
            lemma_envelope_seq_step(events@, i as int);
            assert(sink.delivered() =~= base + envelope_seq(
                events@.subrange(0, i as int + 1),
            ));
        }
        i = i + 1;
    }
    proof {
        assert(events@.subrange(0, events@.len() as int) =~= events@);
    }
    match outcome {
        Ok(_) => (0, None),
        Err(detail) => (-1, Some(detail.clone())),
    }
}

/// Resumes an interrupted upgrade against the engine's observed behaviour.
///
/// Requires a present engine handle: a resumed upgrade on an absent handle
/// is a programming-contract violation, rejected before any callback runs;
/// the boundary shell checks for a null handle and fails loudly in its
/// place. Delivers event envelopes to `sink` and each candidate repair
/// target to `repair`, each in the engine's order, then collapses the
/// outcome exactly as the one-shot upgrade does.
pub fn distinst_resume_upgrade<S: EventSink, R: RepairSink>(
    engine: Option<&EngineRun>,
    sink: &mut S,
    repair: &mut R,
) -> (r: (i32, Option<String>))
    requires
        engine is Some,
    ensures
        final(sink).delivered() == old(sink).delivered() + signal_envelopes(
            engine.unwrap().signals@,
        ),
        final(repair).choices() == old(repair).choices() + signal_repairs(
            engine.unwrap().signals@,
        ),
        engine.unwrap().outcome is Ok ==> r.0 == 0 && r.1 is None,
        engine.unwrap().outcome matches Err(detail) ==> r.0 == -1 && (r.1 matches Some(l) && l@
            == detail@),
{
    let run = engine.unwrap();
    let ghost base_events = sink.delivered();
    let ghost base_repairs = repair.choices();
    let mut i: usize = 0;
    while i < run.signals.len()
        invariant
            i <= run.signals.len(),
            sink.delivered() == base_events + signal_envelopes(run.signals@.subrange(0, i as int)),
            repair.choices() == base_repairs + signal_repairs(run.signals@.subrange(0, i as int)),
        decreases run.signals.len() - i,
    {
        match &run.signals[i] {
            EngineSignal::Event(event) => {
                let envelope = to_envelope(event);
                sink.on_event(envelope);
            },
            EngineSignal::RepairRequest(target) => {
                repair.on_repair_choice(target.as_str());
            },
        }
        proof {
            lemma_signal_step(run.signals@, i as int);
            assert(sink.delivered() =~= base_events + signal_envelopes(
                run.signals@.subrange(0, i as int + 1),
            ));
            assert(repair.choices() =~= base_repairs + signal_repairs(
                run.signals@.subrange(0, i as int + 1),
            ));
        }
        i = i + 1;
    }
    proof {
        assert(run.signals@.subrange(0, run.signals@.len() as int) =~= run.signals@);
    }
    match &run.outcome {
        Ok(_) => (0, None),
        Err(detail) => (-1, Some(detail.clone())),
    }
}

} // verus!
