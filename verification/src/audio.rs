use crate::error::CoreError;
use crate::resample::{
    decimated, decimation_factor, decimation_ratio, fed, joined, leftover, lemma_fed_extends,
    resample_into, PipelineState, TARGET_SAMPLE_RATE,
};
use vstd::prelude::*;

verus! {

/// The numeric encodings a device may deliver samples in. Everything but
/// the three convertible ones is `Other`.
#[derive(Clone, Copy, Debug, PartialEq, Eq, Structural)]
pub enum SampleFormat {
    F32,
    I16,
    U16,
    Other,
}

/// One configuration family that a device supports: a span of sample rates
/// in one encoding.
#[derive(Clone, Copy, Debug, PartialEq, Eq, Structural)]
pub struct ConfigRange {
    pub min_sample_rate: u32,
    pub max_sample_rate: u32,
    pub sample_format: SampleFormat,
}

/// A configuration to open the device with.
#[derive(Clone, Copy, Debug, PartialEq, Eq, Structural)]
pub struct InputConfig {
    pub sample_rate: u32,
    pub sample_format: SampleFormat,
}

/// Where a negotiated configuration comes from: the supported range at an
/// index, pinned to the target rate, or the device's own default.
#[derive(Clone, Copy, Debug, PartialEq, Eq, Structural)]
pub enum ConfigSource {
    Range(usize),
    DeviceDefault,
}

/// The outcome of a negotiation.
#[derive(Clone, Copy, Debug, PartialEq, Eq, Structural)]
pub struct Negotiated {
    pub source: ConfigSource,
    pub config: InputConfig,
}

/// What is known of the default input device: the ranges it supports, where
/// they could be listed, and its default configuration, where it has one.
#[derive(Debug)]
pub struct InputDevice {
    pub supported: Option<Vec<ConfigRange>>,
    pub default_config: Option<InputConfig>,
}

/// Whether the span of `range` holds the target rate.
pub open spec fn offers_target(range: ConfigRange) -> bool {
    range.min_sample_rate <= TARGET_SAMPLE_RATE <= range.max_sample_rate
}

/// The first index at or behind `from` whose range holds the target rate.
pub open spec fn first_offer(ranges: Seq<ConfigRange>, from: int) -> Option<int>
    decreases ranges.len() - from,
{
    if from < 0 || from >= ranges.len() {
        None
    } else if offers_target(ranges[from]) {
        Some(from)
    } else {
        first_offer(ranges, from + 1)
    }
}

/// The ranges of a device as a mathematical value.
pub open spec fn ranges_view(supported: Option<Vec<ConfigRange>>) -> Option<Seq<ConfigRange>> {
    match supported {
        Some(ranges) => Some(ranges@),
        None => None,
    }
}

/// The configuration to ask of a device before its encoding is looked at:
/// the first supported range that holds the target rate, at that rate;
/// failing that, the device's default.
pub open spec fn preferred_config(
    supported: Option<Seq<ConfigRange>>,
    default_config: Option<InputConfig>,
) -> Option<Negotiated> {
    let offer = match supported {
        Some(ranges) => first_offer(ranges, 0),
        None => None,
    };
    match offer {
        Some(i) => Some(
            Negotiated {
                source: ConfigSource::Range(i as usize),
                config: InputConfig {
                    sample_rate: TARGET_SAMPLE_RATE,
                    sample_format: supported->0[i].sample_format,
                },
            },
        ),
        None => match default_config {
            Some(config) => Some(Negotiated { source: ConfigSource::DeviceDefault, config }),
            None => None,
        },
    }
}

/// The whole negotiation: no usable configuration is `DeviceUnavailable`,
/// one in an encoding that cannot be converted is `UnsupportedFormat`.
pub open spec fn negotiated(
    supported: Option<Seq<ConfigRange>>,
    default_config: Option<InputConfig>,
) -> Result<Negotiated, CoreError> {
    match preferred_config(supported, default_config) {
        None => Err(CoreError::DeviceUnavailable),
        Some(choice) => if choice.config.sample_format == SampleFormat::Other {
            Err(CoreError::UnsupportedFormat)
        } else {
            Ok(choice)
        },
    }
}

/// `first_offer` finds the lowest index whose range holds the target rate,
/// and finds none only where no range holds it.
pub proof fn lemma_first_offer(ranges: Seq<ConfigRange>, from: int)
    requires
        0 <= from,
    ensures
        match first_offer(ranges, from) {
            Some(i) => from <= i < ranges.len() && offers_target(ranges[i]) && forall|j: int|
                from <= j < i ==> !offers_target(#[trigger] ranges[j]),
            None => forall|j: int| from <= j < ranges.len() ==> !offers_target(#[trigger] ranges[j]),
        },
    decreases ranges.len() - from,
{
    if from < ranges.len() && !offers_target(ranges[from]) {
        lemma_first_offer(ranges, from + 1);
    }
}

/// Chooses the configuration to record with.
pub fn negotiate_config(device: &InputDevice) -> (r: Result<Negotiated, CoreError>)
    ensures
        r == negotiated(ranges_view(device.supported), device.default_config),
{
    let mut choice: Option<Negotiated> = None;
    match &device.supported {
        Some(ranges) => {
            let mut i: usize = 0;
            while i < ranges.len() && choice.is_none()
                invariant
                    0 <= i <= ranges.len(),
                    choice is None ==> first_offer(ranges@, 0) == first_offer(ranges@, i as int),
                    choice matches Some(found) ==> first_offer(ranges@, 0) matches Some(at)
                        && found == (Negotiated {
                        source: ConfigSource::Range(at as usize),
                        config: InputConfig {
                            sample_rate: TARGET_SAMPLE_RATE,
                            sample_format: ranges@[at].sample_format,
                        },
                    }),
                decreases ranges.len() - i + if choice is None { 1int } else { 0int },
            {
                let range = ranges[i];
                if range.min_sample_rate <= TARGET_SAMPLE_RATE && range.max_sample_rate
                    >= TARGET_SAMPLE_RATE {
                    choice = Some(
                        Negotiated {
                            source: ConfigSource::Range(i),
                            config: InputConfig {
                                sample_rate: TARGET_SAMPLE_RATE,
                                sample_format: range.sample_format,
                            },
                        },
                    );
                } else {
                    i += 1;
                }
            }
        },
        None => {},
    }
    if choice.is_none() {
        match device.default_config {
            Some(config) => {
                choice = Some(Negotiated { source: ConfigSource::DeviceDefault, config });
            },
            None => {},
        }
    }
    match choice {
        None => Err(CoreError::DeviceUnavailable),
        Some(found) => {
            if found.config.sample_format == SampleFormat::Other {
                Err(CoreError::UnsupportedFormat)
            } else {
                Ok(found)
            }
        },
    }
}

/// An audio session as a mathematical value.
pub struct SessionView<T> {
    pub recording: bool,
    pub sample_rate: u32,
    pub buffer: Seq<T>,
    pub pending: Seq<T>,
}

/// The audio session. It is idle or recording; while it records, the
/// capture callback hands it raw samples and it keeps them resampled to
/// the target rate.
pub struct AudioRecorder<T> {
    recording: bool,
    sample_rate: u32,
    buffer: Vec<T>,
    temp_buffer: Vec<T>,
}

impl<T> View for AudioRecorder<T> {
    type V = SessionView<T>;

    closed spec fn view(&self) -> SessionView<T> {
        SessionView {
            recording: self.recording,
            sample_rate: self.sample_rate,
            buffer: self.buffer@,
            pending: self.temp_buffer@,
        }
    }
}

/// The session after `start` on a device (`None`: there is none).
pub open spec fn after_start<T>(session: SessionView<T>, device: Option<InputDevice>) -> SessionView<
    T,
> {
    if session.recording {
        session
    } else {
        match start_result(session, device) {
            Ok(Some(choice)) => SessionView {
                recording: true,
                sample_rate: choice.config.sample_rate,
                buffer: Seq::empty(),
                pending: Seq::empty(),
            },
            _ => session,
        }
    }
}

/// What `start` answers: nothing to do while recording, else the
/// configuration to open the device with, or why there is none.
pub open spec fn start_result<T>(session: SessionView<T>, device: Option<InputDevice>) -> Result<
    Option<Negotiated>,
    CoreError,
> {
    if session.recording {
        Ok(None)
    } else {
        match device {
            None => Err(CoreError::DeviceUnavailable),
            Some(dev) => match negotiated(ranges_view(dev.supported), dev.default_config) {
                Ok(choice) => Ok(Some(choice)),
                Err(e) => Err(e),
            },
        }
    }
}

/// The session after the capture callback delivered `data`.
pub open spec fn after_samples<T>(session: SessionView<T>, data: Seq<T>) -> SessionView<T> {
    if session.recording {
        let next = fed(
            PipelineState { emitted: session.buffer, pending: session.pending },
            data,
            decimation_ratio(session.sample_rate),
        );
        SessionView { buffer: next.emitted, pending: next.pending, ..session }
    } else {
        session
    }
}

/// The session after the capture callback delivered `chunks`, one after
/// the other.
pub open spec fn after_all_samples<T>(session: SessionView<T>, chunks: Seq<Seq<T>>) -> SessionView<T>
    decreases chunks.len(),
{
    if chunks.len() == 0 {
        session
    } else {
        after_samples(after_all_samples(session, chunks.drop_last()), chunks.last())
    }
}

/// A session that has just started holds, after any run of callbacks, the
/// decimation of everything they delivered: of `N` samples at a rate three
/// times the target exactly `N / 3`, rounded down, in the order they came;
/// and at the target rate, all of them.
pub proof fn session_holds_decimated_stream<T>(session: SessionView<T>, chunks: Seq<Seq<T>>)
    requires
        session.recording,
        session.buffer.len() == 0,
        session.pending.len() == 0,
    ensures
        after_all_samples(session, chunks) == (SessionView {
            buffer: decimated(joined(chunks), decimation_ratio(session.sample_rate)),
            pending: leftover(joined(chunks), decimation_ratio(session.sample_rate)),
            ..session
        }),
        after_all_samples(session, chunks).buffer.len() == joined(chunks).len() as int
            / decimation_ratio(session.sample_rate),
        decimation_ratio(session.sample_rate) == 1 ==> after_all_samples(session, chunks).buffer
            == joined(chunks),
    decreases chunks.len(),
{
    let n = decimation_ratio(session.sample_rate);
    assert(1 <= n);
    if chunks.len() == 0 {
        vstd::arithmetic::div_mod::lemma_fundamental_div_mod_converse(0, n, 0, 0);
        assert(session.buffer =~= decimated(joined(chunks), n));
        assert(session.pending =~= leftover(joined(chunks), n));
    } else {
        session_holds_decimated_stream(session, chunks.drop_last());
        lemma_fed_extends(joined(chunks.drop_last()), chunks.last(), n);
    }
    if n == 1 {
        assert(decimated(joined(chunks), 1) =~= joined(chunks));
    }
}

impl<T: Copy> AudioRecorder<T> {
    /// An idle session holds no samples.
    pub open spec fn wf(&self) -> bool {
        !self@.recording ==> self@.buffer.len() == 0 && self@.pending.len() == 0
    }

    /// The idle session.
    pub fn new() -> (r: Self)
        ensures
            r.wf(),
            r@ == (SessionView::<T> {
                recording: false,
                sample_rate: 0,
                buffer: Seq::empty(),
                pending: Seq::empty(),
            }),
    {
        AudioRecorder {
            recording: false,
            sample_rate: 0,
            buffer: Vec::new(),
            temp_buffer: Vec::new(),
        }
    }

    /// Whether the session is recording.
    pub fn is_recording(&self) -> (r: bool)
        ensures
            r == self@.recording,
    {
        self.recording
    }

    /// The rate negotiated by the last successful `start`, in Hz.
    pub fn sample_rate(&self) -> (r: u32)
        ensures
            r == self@.sample_rate,
    {
        self.sample_rate
    }

    /// Starts a session on the default input device, described by `device`
    /// (`None` where there is none). While recording this does nothing and
    /// answers `Ok(None)`. Otherwise it negotiates a configuration and, if
    /// there is one, enters Recording with empty buffers and answers the
    /// configuration that the caller opens the hardware stream with; if the
    /// stream cannot be opened, the caller ends the session with `stop`.
    pub fn start(&mut self, device: Option<&InputDevice>) -> (r: Result<Option<Negotiated>, CoreError>)
        requires
            old(self).wf(),
        ensures
            final(self).wf(),
            r == start_result(
                old(self)@,
                match device {
                    Some(dev) => Some(*dev),
                    None => None,
                },
            ),
            final(self)@ == after_start(
                old(self)@,
                match device {
                    Some(dev) => Some(*dev),
                    None => None,
                },
            ),
    {
        if self.recording {
            return Ok(None);
        }
        match device {
            None => Err(CoreError::DeviceUnavailable),
            Some(dev) => {
                match negotiate_config(dev) {
                    Ok(choice) => {
                        self.buffer.clear();
                        self.temp_buffer.clear();
                        self.sample_rate = choice.config.sample_rate;
                        self.recording = true;
                        assert(self@ =~= after_start(old(self)@, Some(*dev)));
                        Ok(Some(choice))
                    },
                    Err(e) => Err(e),
                }
            },
        }
    }

    /// Takes one callback's worth of raw samples. While recording they run
    /// through the pipeline at the negotiated rate's decimation ratio; an
    /// idle session ignores them.
    pub fn push_samples(&mut self, data: &[T])
        requires
            old(self).wf(),
        ensures
            final(self).wf(),
            final(self)@ == after_samples(old(self)@, data@),
    {
        if self.recording {
            let factor = decimation_factor(self.sample_rate);
            resample_into(&mut self.temp_buffer, &mut self.buffer, data, factor);
        }
    }

    /// Ends the session: it becomes idle, hands out the resampled samples
    /// and forgets the samples of an incomplete group. An idle session
    /// hands out nothing.
    pub fn stop(&mut self) -> (samples: Vec<T>)
        requires
            old(self).wf(),
        ensures
            final(self).wf(),
            samples@ == old(self)@.buffer,
            !old(self)@.recording ==> samples@.len() == 0,
            final(self)@ == (SessionView::<T> {
                recording: false,
                sample_rate: old(self)@.sample_rate,
                buffer: Seq::empty(),
                pending: Seq::empty(),
            }),
    {
        self.recording = false;
        let mut samples: Vec<T> = Vec::new();
        std::mem::swap(&mut self.buffer, &mut samples);
        self.temp_buffer.clear();
        samples
    }
}

} // verus!
