//! Choosing an output: its device, its buffer and the layout of its frames.
use super::naming::{append_decimal, decimal};
use vstd::prelude::*;

verus! {

/// Frames of a buffer that nobody asked for.
pub const AUTO_BUFFER_FRAMES: u32 = 512;

/// What a device says of its buffer.
#[derive(Clone, Copy, Debug, PartialEq, Eq, Structural)]
pub enum SupportedBufferSize {
    Range { min: u32, max: u32 },
    Unknown,
}

#[derive(Clone, Copy, Debug, PartialEq, Eq, Structural)]
pub enum BufferSize {
    Default,
    Fixed(u32),
}

#[derive(Clone, Copy, Debug, PartialEq, Eq, Structural)]
pub enum BufferError {
    /// A buffer holds at least one frame.
    Empty,
    Unsupported { requested: u32, min: u32, max: u32 },
}

impl BufferError {
    pub open spec fn text(self) -> Seq<char> {
        match self {
            BufferError::Empty => "audio buffer must contain at least one frame"@,
            BufferError::Unsupported { requested, min, max } => "audio buffer "@ + decimal(
                requested as nat,
            ) + " frames is unsupported; device accepts "@ + decimal(min as nat) + "–"@
                + decimal(max as nat) + " frames"@,
        }
    }

    pub fn message(&self) -> (text: String)
        ensures
            text@ == self.text(),
    {
        match self {
            BufferError::Empty => String::from_str("audio buffer must contain at least one frame"),
            BufferError::Unsupported { requested, min, max } => {
                let mut text = String::from_str("audio buffer ");
                append_decimal(&mut text, *requested as u128);
                text.append(" frames is unsupported; device accepts ");
                append_decimal(&mut text, *min as u128);
                text.append("–");
                append_decimal(&mut text, *max as u128);
                text.append(" frames");
                text
            },
        }
    }
}

/// The buffer to ask a device for.
pub open spec fn buffer_size_for(supported: SupportedBufferSize, requested: Option<u32>) -> Result<
    BufferSize,
    BufferError,
> {
    match requested {
        Some(frames) => if frames == 0 {
            Err(BufferError::Empty)
        } else {
            match supported {
                SupportedBufferSize::Range { min, max } => if min <= frames <= max {
                    Ok(BufferSize::Fixed(frames))
                } else {
                    Err(BufferError::Unsupported { requested: frames, min, max })
                },
                SupportedBufferSize::Unknown => Ok(BufferSize::Fixed(frames)),
            }
        },
        None => Ok(
            match supported {
                SupportedBufferSize::Range { min, max } => BufferSize::Fixed(
                    if AUTO_BUFFER_FRAMES < min {
                        min
                    } else if AUTO_BUFFER_FRAMES > max {
                        max
                    } else {
                        AUTO_BUFFER_FRAMES
                    },
                ),
                SupportedBufferSize::Unknown => BufferSize::Default,
            },
        ),
    }
}

/// Chooses the buffer: as requested where the device can, else near the usual
/// size.
pub fn select_buffer_size(supported: &SupportedBufferSize, requested: Option<u32>) -> (r: Result<
    BufferSize,
    BufferError,
>)
    requires
        requested is None && *supported is Range ==> supported->min <= supported->max,
    ensures
        r == buffer_size_for(*supported, requested),
{
    if let Some(frames) = requested {
        if frames == 0 {
            return Err(BufferError::Empty);
        }
    }
    match supported {
        SupportedBufferSize::Range { min, max } => match requested {
            Some(frames) => if frames < *min || frames > *max {
                Err(BufferError::Unsupported { requested: frames, min: *min, max: *max })
            } else {
                Ok(BufferSize::Fixed(frames))
            },
            None => if AUTO_BUFFER_FRAMES < *min {
                Ok(BufferSize::Fixed(*min))
            } else if AUTO_BUFFER_FRAMES > *max {
                Ok(BufferSize::Fixed(*max))
            } else {
                Ok(BufferSize::Fixed(AUTO_BUFFER_FRAMES))
            },
        },
        SupportedBufferSize::Unknown => match requested {
            Some(frames) => Ok(BufferSize::Fixed(frames)),
            None => Ok(BufferSize::Default),
        },
    }
}

/// A buffer is never empty, and never one that the device cannot do.
pub proof fn buffers_fit_the_device(supported: SupportedBufferSize, requested: Option<u32>)
    requires
        supported matches SupportedBufferSize::Range { min, max } ==> 1 <= min <= max,
    ensures
        buffer_size_for(supported, requested) matches Ok(BufferSize::Fixed(frames)) ==> frames
            >= 1 && (supported matches SupportedBufferSize::Range { min, max } ==> min <= frames
            <= max),
        buffer_size_for(supported, requested) matches Ok(BufferSize::Fixed(frames)) && requested
            is Some ==> requested == Some(buffer_size_for(supported, requested)->Ok_0->Fixed_0),
{
}

/// Why no device was chosen.
#[derive(Clone, Copy, Debug, PartialEq, Eq, Structural)]
pub enum DeviceError {
    NotFound,
    Ambiguous { matches: usize },
}

/// The names of the devices, as far as they have one.
pub open spec fn named(devices: Seq<Option<String>>, i: int, name: Seq<char>) -> bool {
    devices[i] matches Some(n) && n@ == name
}

/// How many of the first `n` devices have a name.
pub open spec fn bearers(devices: Seq<Option<String>>, name: Seq<char>, n: int) -> nat
    decreases n,
{
    if n <= 0 {
        0
    } else {
        bearers(devices, name, n - 1) + if named(devices, n - 1, name) {
            1nat
        } else {
            0
        }
    }
}

fn same_text(a: &str, b: &str) -> (r: bool)
    ensures
        r == (a@ == b@),
{
    let length: usize = a.unicode_len();
    if length != b.unicode_len() {
        return false;
    }
    let mut i: usize = 0;
    while i < length
        invariant
            i <= length == a@.len() == b@.len(),
            forall|k: int| 0 <= k < i ==> a@[k] == b@[k],
        decreases length - i,
    {
        if a.get_char(i) != b.get_char(i) {
            return false;
        }
        i = i + 1;
    }
    assert(a@ =~= b@);
    true
}

/// Whether a text comes before another or is the same, from a place on: the
/// first character that differs decides, and a text comes before its
/// continuations.
pub open spec fn ordered_from(a: Seq<char>, b: Seq<char>, from: int) -> bool
    decreases a.len() - from,
{
    if from >= a.len() {
        true
    } else if from >= b.len() {
        false
    } else if a[from] != b[from] {
        a[from] < b[from]
    } else {
        ordered_from(a, b, from + 1)
    }
}

pub open spec fn ordered(a: Seq<char>, b: Seq<char>) -> bool {
    ordered_from(a, b, 0)
}

proof fn order_is_total(a: Seq<char>, b: Seq<char>, from: int)
    ensures
        ordered_from(a, b, from) || ordered_from(b, a, from),
    decreases a.len() - from,
{
    if from < a.len() && from < b.len() {
        order_is_total(a, b, from + 1);
    }
}

proof fn order_is_transitive(a: Seq<char>, b: Seq<char>, c: Seq<char>, from: int)
    requires
        ordered_from(a, b, from),
        ordered_from(b, c, from),
    ensures
        ordered_from(a, c, from),
    decreases a.len() - from,
{
    if from < a.len() && from < b.len() && from < c.len() && a[from] == b[from] && b[from]
        == c[from] {
        order_is_transitive(a, b, c, from + 1);
    }
}

fn is_ordered(a: &str, b: &str) -> (r: bool)
    ensures
        r == ordered(a@, b@),
{
    let first: usize = a.unicode_len();
    let second: usize = b.unicode_len();
    let mut i: usize = 0;
    while i < first && i < second
        invariant
            first == a@.len(),
            second == b@.len(),
            i <= first,
            i <= second,
            ordered(a@, b@) == ordered_from(a@, b@, i as int),
        decreases first - i,
    {
        let left: char = a.get_char(i);
        let right: char = b.get_char(i);
        if left != right {
            return left < right;
        }
        i = i + 1;
    }
    i >= first
}

/// The names of the devices that have one.
pub open spec fn readable(devices: Seq<Option<String>>) -> Seq<Seq<char>>
    decreases devices.len(),
{
    if devices.len() == 0 {
        Seq::empty()
    } else {
        match devices.last() {
            Some(name) => readable(devices.drop_last()).push(name@),
            None => readable(devices.drop_last()),
        }
    }
}

pub open spec fn texts(names: Seq<String>) -> Seq<Seq<char>> {
    Seq::new(names.len(), |i: int| names[i]@)
}

pub open spec fn is_sorted(names: Seq<Seq<char>>) -> bool {
    forall|i: int, j: int| 0 <= i <= j < names.len() ==> ordered(#[trigger] names[i], #[trigger] names[j])
}

/// Puts a name into a sorted list.
fn insert_name(names: &mut Vec<String>, name: String)
    requires
        is_sorted(texts(old(names)@)),
    ensures
        is_sorted(texts(final(names)@)),
        texts(final(names)@).to_multiset() == texts(old(names)@).to_multiset().insert(name@),
{
    let ghost before = texts(names@);
    let ghost text = name@;
    let mut place: usize = 0;
    while place < names.len() && !is_ordered(name.as_str(), names[place].as_str())
        invariant
            place <= names@.len(),
            names@ == old(names)@,
            before == texts(names@),
            text == name@,
            forall|k: int| 0 <= k < place ==> !ordered(text, #[trigger] before[k]),
        decreases names@.len() - place,
    {
        assert(before[place as int] == names@[place as int]@);
        place = place + 1;
    }
    proof {
        if place < names@.len() {
            assert(before[place as int] == names@[place as int]@);
        }
    }
    names.insert(place, name);
    proof {
        let after = texts(names@);
        assert(after =~= before.insert(place as int, text));
        vstd::seq_lib::to_multiset_insert(before, place as int, text);
        assert forall|i: int, j: int| 0 <= i <= j < after.len() implies ordered(
            #[trigger] after[i],
            #[trigger] after[j],
        ) by {
            order_is_total(after[i], after[j], 0);
            if i < place && j == place {
                assert(!ordered(text, before[i]));
            } else if i == place && j > place {
                assert(ordered(before[place as int], before[j - 1]));
                order_is_transitive(text, before[place as int], before[j - 1], 0);
            } else if i == j {
            } else {
                let low = if i < place {
                    i
                } else {
                    i - 1
                };
                let high = if j < place {
                    j
                } else {
                    j - 1
                };
                assert(ordered(before[low], before[high]));
            }
        }
    }
}

/// Lists the devices by name, in order. A device without a name is left out.
pub fn listed_names(devices: Vec<Option<String>>) -> (names: Vec<String>)
    ensures
        is_sorted(texts(names@)),
        texts(names@).to_multiset() == readable(devices@).to_multiset(),
{
    let mut left: Vec<Option<String>> = devices;
    let mut names: Vec<String> = Vec::new();
    assert(texts(names@) =~= Seq::<Seq<char>>::empty());
    proof {
        let none = Seq::<Seq<char>>::empty();
        broadcast use vstd::multiset::group_multiset_axioms, vstd::seq_lib::group_seq_properties;

        assert(none.to_multiset() =~= vstd::multiset::Multiset::empty());
        assert(none.to_multiset().add(readable(left@).to_multiset()) =~= readable(
            left@,
        ).to_multiset());
    }
    while left.len() > 0
        invariant
            is_sorted(texts(names@)),
            texts(names@).to_multiset().add(readable(left@).to_multiset()) == readable(
                devices@,
            ).to_multiset(),
        decreases left@.len(),
    {
        let ghost before = left@;
        let ghost sorted = texts(names@);
        if let Some(last) = left.pop() {
            assert(left@ =~= before.drop_last());
            if let Some(name) = last {
                let ghost text = name@;
                insert_name(&mut names, name);
                proof {
                    vstd::seq_lib::to_multiset_build(readable(left@), text);
                    assert(sorted.to_multiset().insert(text).add(readable(left@).to_multiset())
                        =~= sorted.to_multiset().add(
                        readable(left@).to_multiset().insert(text),
                    ));
                }
            }
        }
    }
    proof {
        assert(readable(left@) =~= Seq::<Seq<char>>::empty());
        assert(texts(names@).to_multiset().add(Seq::<Seq<char>>::empty().to_multiset())
            =~= texts(names@).to_multiset());
    }
    names
}

/// Finds the one device of a name. A name that none or several bear chooses
/// none.
pub fn choose_device(devices: &Vec<Option<String>>, name: &str) -> (r: Result<usize, DeviceError>)
    ensures
        match r {
            Ok(i) => i < devices@.len() && named(devices@, i as int, name@) && bearers(
                devices@,
                name@,
                devices@.len() as int,
            ) == 1,
            Err(DeviceError::NotFound) => bearers(devices@, name@, devices@.len() as int) == 0,
            Err(DeviceError::Ambiguous { matches: n }) => n == bearers(
                devices@,
                name@,
                devices@.len() as int,
            ) && n >= 2,
        },
{
    let mut found: usize = 0;
    let mut matches: usize = 0;
    let mut i: usize = 0;
    while i < devices.len()
        invariant
            i <= devices@.len(),
            matches <= i,
            matches == bearers(devices@, name@, i as int),
            matches >= 1 ==> found < i && named(devices@, found as int, name@),
        decreases devices@.len() - i,
    {
        if let Some(candidate) = &devices[i] {
            if same_text(candidate.as_str(), name) {
                found = i;
                matches = matches + 1;
            }
        }
        i = i + 1;
    }
    if matches == 1 {
        Ok(found)
    } else if matches == 0 {
        Err(DeviceError::NotFound)
    } else {
        Err(DeviceError::Ambiguous { matches })
    }
}

/// The names of the devices, separated by commas.
pub open spec fn name_list(devices: Seq<Option<String>>, n: int) -> Seq<char>
    decreases n,
{
    if n <= 0 {
        Seq::empty()
    } else {
        let before = name_list(devices, n - 1);
        match devices[n - 1] {
            Some(name) => if has_name(devices, n - 1) {
                before + ", "@ + name@
            } else {
                before + name@
            },
            None => before,
        }
    }
}

/// Whether any of the first `n` devices has a name.
pub open spec fn has_name(devices: Seq<Option<String>>, n: int) -> bool
    decreases n,
{
    n > 0 && (devices[n - 1] is Some || has_name(devices, n - 1))
}

fn join_names(devices: &Vec<Option<String>>) -> (text: String)
    ensures
        text@ == name_list(devices@, devices@.len() as int),
{
    let mut text = String::new();
    let mut started: bool = false;
    let mut i: usize = 0;
    while i < devices.len()
        invariant
            i <= devices@.len(),
            text@ == name_list(devices@, i as int),
            started == has_name(devices@, i as int),
        decreases devices@.len() - i,
    {
        if let Some(name) = &devices[i] {
            if started {
                text.append(", ");
            }
            text.append(name.as_str());
            started = true;
        }
        i = i + 1;
    }
    text
}

impl DeviceError {
    pub open spec fn text(self, name: Seq<char>, outputs: Seq<char>) -> Seq<char> {
        match self {
            DeviceError::NotFound => "audio output `"@ + name
                + "` was not found; available outputs: "@ + outputs
                + "; run `terminal-groove --list-audio-devices`"@,
            DeviceError::Ambiguous { matches } => "audio output name `"@ + name
                + "` is ambiguous ("@ + decimal(matches as nat)
                + " matches); available outputs: "@ + outputs
                + "; use an exact unique name from `terminal-groove --list-audio-devices`"@,
        }
    }

    /// Says what is wrong with a name, and which names there are.
    pub fn message(&self, name: &str, devices: &Vec<Option<String>>) -> (text: String)
        ensures
            text@ == self.text(name@, name_list(devices@, devices@.len() as int)),
    {
        let outputs = join_names(devices);
        match self {
            DeviceError::NotFound => {
                let mut text = String::from_str("audio output `");
                text.append(name);
                text.append("` was not found; available outputs: ");
                text.append(outputs.as_str());
                text.append("; run `terminal-groove --list-audio-devices`");
                text
            },
            DeviceError::Ambiguous { matches } => {
                let mut text = String::from_str("audio output name `");
                text.append(name);
                text.append("` is ambiguous (");
                append_decimal(&mut text, *matches as u128);
                text.append(" matches); available outputs: ");
                text.append(outputs.as_str());
                text.append(
                    "; use an exact unique name from `terminal-groove --list-audio-devices`",
                );
                text
            },
        }
    }
}

/// An entry of the audio log.
pub open spec fn log_entry(
    timestamp: nat,
    device: Seq<char>,
    kind: Seq<char>,
    message: Seq<char>,
) -> Seq<char> {
    "timestamp_unix_ms="@ + decimal(timestamp) + "\n"@ + "device="@ + device + "\n"@ + "kind="@
        + kind + "\n"@ + "message="@ + message + "\n"@ + "\n"@
}

pub fn audio_log_entry(timestamp: u128, device: &str, kind: &str, message: &str) -> (text: String)
    ensures
        text@ == log_entry(timestamp as nat, device@, kind@, message@),
{
    let mut text = String::from_str("timestamp_unix_ms=");
    append_decimal(&mut text, timestamp);
    text.append("\n");
    text.append("device=");
    text.append(device);
    text.append("\n");
    text.append("kind=");
    text.append(kind);
    text.append("\n");
    text.append("message=");
    text.append(message);
    text.append("\n");
    text.append("\n");
    text
}

/// What goes to a channel of the output.
#[derive(Clone, Copy, Debug, PartialEq, Eq, Structural)]
pub enum ChannelSource {
    /// The mean of both sides.
    Both,
    Left,
    Right,
    Silence,
}

pub open spec fn source_of(channels: int, channel: int) -> ChannelSource {
    if channel == 0 {
        if channels == 1 {
            ChannelSource::Both
        } else {
            ChannelSource::Left
        }
    } else if channel == 1 {
        ChannelSource::Right
    } else {
        ChannelSource::Silence
    }
}

/// Where the two sides of a frame go on an output of so many channels.
pub fn channel_source(channels: usize, channel: usize) -> (source: ChannelSource)
    ensures
        source == source_of(channels as int, channel as int),
{
    match channel {
        0 => if channels == 1 {
            ChannelSource::Both
        } else {
            ChannelSource::Left
        },
        1 => ChannelSource::Right,
        _ => ChannelSource::Silence,
    }
}

/// Frames that a buffer of samples holds; one that is cut off counts.
pub fn output_frames(samples: usize, channels: usize) -> (frames: usize)
    requires
        channels >= 1,
    ensures
        frames == (samples + channels - 1) / (channels as int),
{
    let whole: usize = samples / channels;
    let left: usize = samples % channels;
    proof {
        rounding_up(samples as int, channels as int);
        assert(whole <= samples) by (nonlinear_arith)
            requires
                whole == samples / channels,
                channels >= 1,
        ;
        if left > 0 {
            assert(whole < samples) by (nonlinear_arith)
                requires
                    whole == samples / channels,
                    left == samples % channels,
                    left > 0,
                    channels >= 1,
            ;
        }
    }
    if left > 0 {
        whole + 1
    } else {
        whole
    }
}

proof fn rounding_up(samples: int, channels: int)
    requires
        0 <= samples,
        1 <= channels,
    ensures
        (samples + channels - 1) / channels == samples / channels + if samples % channels > 0 {
            1int
        } else {
            0
        },
{
    let whole = samples / channels;
    let left = samples % channels;
    vstd::arithmetic::div_mod::lemma_fundamental_div_mod(samples, channels);
    assert(whole * channels == channels * whole) by (nonlinear_arith);
    assert((whole + 1) * channels == whole * channels + channels) by (nonlinear_arith);
    if left > 0 {
        vstd::arithmetic::div_mod::lemma_fundamental_div_mod_converse(
            samples + channels - 1,
            channels,
            whole + 1,
            left - 1,
        );
    } else {
        vstd::arithmetic::div_mod::lemma_fundamental_div_mod_converse(
            samples + channels - 1,
            channels,
            whole,
            channels - 1,
        );
    }
}

} // verus!
