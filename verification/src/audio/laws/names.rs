//! What recordings are called, and how devices are listed and chosen.
use crate::audio::device::{
    bearers, buffer_size_for, is_sorted, log_entry, named, ordered, ordered_from, readable,
    source_of, BufferError, BufferSize, ChannelSource, SupportedBufferSize,
};
use crate::audio::naming::{
    cleaned, decimal, digit, display_name, is_plain, leading, recording_name, stripped, trailing,
    trimmed,
};
use vstd::prelude::*;

verus! {

/// Letters, digits, hyphens and underscores stay in a name; nothing else does.
pub proof fn plain_characters_are_few(c: char)
    ensures
        is_plain(c) <==> ('a' <= c && c <= 'z') || ('A' <= c && c <= 'Z') || ('0' <= c && c <= '9')
            || c == '-' || c == '_',
{
}

proof fn cleaning_leaves_plain_characters(name: Seq<char>, n: int)
    requires
        0 <= n <= name.len(),
    ensures
        forall|i: int|
            0 <= i < cleaned(name, n).len() ==> is_plain(#[trigger] cleaned(name, n)[i]),
        cleaned(name, n).len() <= n,
    decreases n,
{
    if n > 0 {
        cleaning_leaves_plain_characters(name, n - 1);
        let before = cleaned(name, n - 1);
        let after = cleaned(name, n);
        assert forall|i: int| 0 <= i < after.len() implies is_plain(#[trigger] after[i]) by {
            if i < before.len() {
                assert(after[i] == before[i]);
            }
        }
    }
}

/// A run of other characters becomes one underscore, and everything else stays
/// in its order.
pub proof fn runs_become_one_underscore(name: Seq<char>, n: int)
    requires
        0 < n <= name.len(),
    ensures
        cleaned(name, 0).len() == 0,
        is_plain(name[n - 1]) ==> cleaned(name, n) == cleaned(name, n - 1).push(name[n - 1]),
        !is_plain(name[n - 1]) && (n == 1 || is_plain(name[n - 2])) ==> cleaned(name, n) == cleaned(
            name,
            n - 1,
        ).push('_'),
        !is_plain(name[n - 1]) && n > 1 && !is_plain(name[n - 2]) ==> cleaned(name, n) == cleaned(
            name,
            n - 1,
        ),
{
}

/// A name of plain characters is already clean.
pub proof fn plain_names_are_clean(name: Seq<char>, n: int)
    requires
        0 <= n <= name.len(),
        forall|i: int| 0 <= i < n ==> is_plain(#[trigger] name[i]),
    ensures
        cleaned(name, n) == name.take(n),
    decreases n,
{
    if n > 0 {
        plain_names_are_clean(name, n - 1);
        assert(is_plain(name[n - 1]));
        assert(name.take(n - 1).push(name[n - 1]) =~= name.take(n));
    } else {
        assert(name.take(0) =~= Seq::<char>::empty());
    }
}

proof fn leading_stops_at_a_character(name: Seq<char>, from: int)
    requires
        0 <= from <= name.len(),
    ensures
        from <= leading(name, from) <= name.len(),
        leading(name, from) < name.len() ==> name[leading(name, from)] != '_',
        forall|i: int| from <= i < leading(name, from) ==> (#[trigger] name[i]) == '_',
    decreases name.len() - from,
{
    if from < name.len() && name[from] == '_' {
        leading_stops_at_a_character(name, from + 1);
    }
}

proof fn trailing_stops_at_a_character(name: Seq<char>, low: int, to: int)
    requires
        0 <= low <= to <= name.len(),
    ensures
        low <= trailing(name, low, to) <= to,
        trailing(name, low, to) > low ==> name[trailing(name, low, to) - 1] != '_',
        forall|i: int| trailing(name, low, to) <= i < to ==> (#[trigger] name[i]) == '_',
    decreases to,
{
    if to > low && to > 0 && name[to - 1] == '_' {
        trailing_stops_at_a_character(name, low, to - 1);
    }
}

/// Trimming takes underscores from both ends of a name and nothing else.
pub proof fn trimming_takes_underscores(name: Seq<char>)
    ensures
        trimmed(name).len() > 0 ==> trimmed(name).first() != '_' && trimmed(name).last() != '_',
        exists|low: int, high: int|
            0 <= low <= high <= name.len() && trimmed(name) == #[trigger] name.subrange(low, high)
                && (forall|i: int|
                0 <= i < low || high <= i < name.len() ==> (#[trigger] name[i]) == '_'),
{
    leading_stops_at_a_character(name, 0);
    let low = leading(name, 0);
    trailing_stops_at_a_character(name, low, name.len() as int);
    let high = trailing(name, low, name.len() as int);
    assert(trimmed(name) == name.subrange(low, high));
    if trimmed(name).len() > 0 {
        assert(trimmed(name).first() == name[low]);
        assert(trimmed(name).last() == name[high - 1]);
    }
}

/// The ending of project files is taken off a name that has it, and a name
/// without it stays as it is.
pub proof fn project_endings_are_taken_off(base: Seq<char>, name: Seq<char>)
    ensures
        stripped(base + ".groove.json"@) == base,
        name.len() < ".groove.json"@.len() ==> stripped(name) == name,
        name.len() >= ".groove.json"@.len() && name.skip(name.len() - ".groove.json"@.len())
            != ".groove.json"@ ==> stripped(name) == name,
{
    let whole = base + ".groove.json"@;
    assert(whole.skip(whole.len() - ".groove.json"@.len()) =~= ".groove.json"@);
    assert(whole.take(whole.len() - ".groove.json"@.len()) =~= base);
}

/// What a recording is called after consists of plain characters, and neither
/// begins nor ends with an underscore; a project without a name is untitled.
pub proof fn recordings_have_plain_names(file_name: Option<Seq<char>>, i: int)
    requires
        0 <= i < display_name(file_name).len(),
    ensures
        is_plain(display_name(file_name)[i]),
        display_name(file_name).len() > 0,
        display_name(file_name).first() != '_',
        display_name(file_name).last() != '_',
        file_name is None ==> display_name(file_name) == "untitled"@,
{
    reveal_strlit("untitled");
    if let Some(name) = file_name {
        let base = stripped(name);
        let clean = cleaned(base, base.len() as int);
        cleaning_leaves_plain_characters(base, base.len() as int);
        leading_stops_at_a_character(clean, 0);
        let low = leading(clean, 0);
        trailing_stops_at_a_character(clean, low, clean.len() as int);
        trimming_takes_underscores(clean);
        if trimmed(clean).len() > 0 {
            assert(trimmed(clean)[i] == clean[low + i]);
        }
    }
}

/// A plain name that no underscore begins or ends is kept whole, with or
/// without the ending of project files.
pub proof fn plain_names_are_kept(name: Seq<char>)
    requires
        name.len() > 0,
        forall|i: int| 0 <= i < name.len() ==> is_plain(#[trigger] name[i]),
        name.first() != '_',
        name.last() != '_',
    ensures
        display_name(Some(name + ".groove.json"@)) == name,
{
    project_endings_are_taken_off(name, name);
    plain_names_are_clean(name, name.len() as int);
    assert(name.take(name.len() as int) =~= name);
    leading_stops_at_a_character(name, 0);
    trailing_stops_at_a_character(name, leading(name, 0), name.len() as int);
    assert(leading(name, 0) == 0);
    assert(trailing(name, 0, name.len() as int) == name.len());
    assert(name.subrange(0, name.len() as int) =~= name);
}

/// Numbers are written in decimal: their last digit behind the digits of the
/// rest, and nothing in front of a single digit.
pub proof fn numbers_are_decimal(n: nat, d: int)
    requires
        0 <= d < 10,
    ensures
        digit(d) as int == '0' as int + d,
        n > 0 ==> decimal((10 * n + d) as nat) == decimal(n).push(digit(d)),
        decimal(d as nat) == seq![digit(d)],
{
    if n > 0 {
        let whole = (10 * n + d) as nat;
        assert(whole / 10 == n && whole % 10 == d);
    }
}

/// A recording is called after its project, its time and, from the second on,
/// a number.
pub proof fn recordings_are_named_after_their_project(
    name: Seq<char>,
    timestamp: nat,
    suffix: nat,
)
    ensures
        recording_name(name, timestamp, 0) == name + "-"@ + decimal(timestamp) + ".wav"@,
        suffix > 0 ==> recording_name(name, timestamp, suffix) == name + "-"@ + decimal(timestamp)
            + "-"@ + decimal(suffix) + ".wav"@,
{
}

/// A buffer is as long as was asked for where the device can have it so, else
/// it is refused; without a wish it is as near to the usual length as the
/// device can come.
pub proof fn buffers_are_chosen_as_asked(min: u32, max: u32, frames: u32)
    requires
        min <= max,
    ensures
        ({
            let range = SupportedBufferSize::Range { min, max };
            &&& frames > 0 && min <= frames <= max ==> buffer_size_for(range, Some(frames)) == Ok::<
                BufferSize,
                BufferError,
            >(BufferSize::Fixed(frames))
            &&& frames > 0 && (frames < min || frames > max) ==> buffer_size_for(
                range,
                Some(frames),
            ) == Err::<BufferSize, BufferError>(
                BufferError::Unsupported { requested: frames, min, max },
            )
            &&& buffer_size_for(range, Some(0)) == Err::<BufferSize, BufferError>(
                BufferError::Empty,
            )
            &&& buffer_size_for(SupportedBufferSize::Unknown, Some(0)) == Err::<
                BufferSize,
                BufferError,
            >(BufferError::Empty)
            &&& frames > 0 ==> buffer_size_for(SupportedBufferSize::Unknown, Some(frames)) == Ok::<
                BufferSize,
                BufferError,
            >(BufferSize::Fixed(frames))
            &&& buffer_size_for(SupportedBufferSize::Unknown, None) == Ok::<
                BufferSize,
                BufferError,
            >(BufferSize::Default)
            &&& min <= 512 <= max ==> buffer_size_for(range, None) == Ok::<
                BufferSize,
                BufferError,
            >(BufferSize::Fixed(512))
            &&& min > 512 ==> buffer_size_for(range, None) == Ok::<BufferSize, BufferError>(
                BufferSize::Fixed(min),
            )
            &&& max < 512 ==> buffer_size_for(range, None) == Ok::<BufferSize, BufferError>(
                BufferSize::Fixed(max),
            )
        }),
{
}

proof fn bearers_are_counted(
    devices: Seq<Option<String>>,
    name: Seq<char>,
    n: int,
    i: int,
)
    requires
        0 <= i < n <= devices.len(),
    ensures
        named(devices, i, name) ==> bearers(devices, name, n) >= 1,
    decreases n,
{
    if i < n - 1 {
        bearers_are_counted(devices, name, n - 1, i);
    }
}

/// A device is the one of its name exactly where nobody else bears it: one
/// bearer is not two, and none is none.
pub proof fn bearers_are_told_apart(
    devices: Seq<Option<String>>,
    name: Seq<char>,
    n: int,
    i: int,
    j: int,
)
    requires
        0 <= i < j < n <= devices.len(),
    ensures
        named(devices, i, name) && named(devices, j, name) ==> bearers(devices, name, n) >= 2,
        named(devices, i, name) ==> bearers(devices, name, n) >= 1,
        devices[i] is None ==> !named(devices, i, name),
        devices[i] matches Some(own) ==> (named(devices, i, name) <==> own@ == name),
    decreases n,
{
    bearers_are_counted(devices, name, n, i);
    if j < n - 1 {
        bearers_are_told_apart(devices, name, n - 1, i, j);
    } else if named(devices, i, name) && named(devices, j, name) {
        bearers_are_counted(devices, name, n - 1, i);
    }
}

/// A name that no device bears has no bearer.
pub proof fn strangers_have_no_bearer(devices: Seq<Option<String>>, name: Seq<char>, n: int)
    requires
        0 <= n <= devices.len(),
        forall|i: int|
            0 <= i < n ==> ((#[trigger] devices[i]) matches Some(own) ==> own@ != name),
    ensures
        bearers(devices, name, n) == 0,
    decreases n,
{
    if n > 0 {
        assert(devices[n - 1] matches Some(own) ==> own@ != name);
        strangers_have_no_bearer(devices, name, n - 1);
    }
}

proof fn names_agree_up_to(a: Seq<char>, b: Seq<char>, from: int, at: int)
    requires
        0 <= from <= at <= a.len(),
        at <= b.len(),
        forall|i: int| from <= i < at ==> (#[trigger] a[i]) == b[i],
    ensures
        ordered_from(a, b, from) == ordered_from(a, b, at),
    decreases at - from,
{
    if from < at {
        assert(a[from] == b[from]);
        names_agree_up_to(a, b, from + 1, at);
    }
}

/// Names are ordered as in a dictionary: by the first character in which they
/// differ, and the shorter first where one begins the other.
pub proof fn names_are_ordered_as_in_a_dictionary(a: Seq<char>, b: Seq<char>, at: int)
    requires
        0 <= at <= a.len(),
        at <= b.len(),
        forall|i: int| 0 <= i < at ==> (#[trigger] a[i]) == b[i],
    ensures
        at < a.len() && at < b.len() && a[at] < b[at] ==> ordered(a, b) && !ordered(b, a),
        at == a.len() ==> ordered(a, b),
        at == a.len() && at < b.len() ==> !ordered(b, a),
{
    names_agree_up_to(a, b, 0, at);
    names_agree_up_to(b, a, 0, at);
}

/// A list is sorted where every name is followed by names that are not before
/// it.
pub proof fn sorted_lists_are_ordered(names: Seq<Seq<char>>, i: int, j: int)
    requires
        is_sorted(names),
        0 <= i < j < names.len(),
    ensures
        ordered(names[i], names[j]),
{
}

/// The readable names are those of the devices that have one, in their order.
pub proof fn readable_names_keep_their_order(devices: Seq<Option<String>>, last: Option<String>)
    ensures
        readable(Seq::<Option<String>>::empty()).len() == 0,
        last matches Some(name) ==> readable(devices.push(last)) == readable(devices).push(name@),
        last is None ==> readable(devices.push(last)) == readable(devices),
{
    assert(devices.push(last).drop_last() =~= devices);
}

/// A frame goes left and right to the first two channels of an output, to the
/// only one from both sides, and nowhere else.
pub proof fn frames_go_to_two_channels(channels: int, channel: int)
    requires
        0 <= channel < channels,
    ensures
        channels == 1 ==> source_of(channels, channel) == ChannelSource::Both,
        channels > 1 && channel == 0 ==> source_of(channels, channel) == ChannelSource::Left,
        channels > 1 && channel == 1 ==> source_of(channels, channel) == ChannelSource::Right,
        channel > 1 ==> source_of(channels, channel) == ChannelSource::Silence,
{
}

/// An entry of the log gives its time, device, kind and message on lines of
/// their own, in this order, and ends with an empty line.
pub proof fn log_entries_have_a_line_for_each_part(
    timestamp: nat,
    device: Seq<char>,
    kind: Seq<char>,
    message: Seq<char>,
)
    ensures
        log_entry(timestamp, device, kind, message) == "timestamp_unix_ms="@ + decimal(timestamp)
            + "\n"@ + "device="@ + device + "\n"@ + "kind="@ + kind + "\n"@ + "message="@ + message
            + "\n"@ + "\n"@,
{
}

} // verus!
