//! Names of recordings.
use vstd::prelude::*;

verus! {

/// Ending of project files.
pub open spec fn project_suffix() -> Seq<char> {
    ".groove.json"@
}

/// Whether a file name may keep a character.
pub open spec fn is_plain(c: char) -> bool {
    ('a' <= c && c <= 'z') || ('A' <= c && c <= 'Z') || ('0' <= c && c <= '9') || c == '-' || c
        == '_'
}

/// The first `n` characters with every run of others put as one underscore.
pub open spec fn cleaned(name: Seq<char>, n: int) -> Seq<char>
    decreases n,
{
    if n <= 0 {
        Seq::empty()
    } else if is_plain(name[n - 1]) {
        cleaned(name, n - 1).push(name[n - 1])
    } else if n >= 2 && !is_plain(name[n - 2]) {
        cleaned(name, n - 1)
    } else {
        cleaned(name, n - 1).push('_')
    }
}

/// How many underscores a name begins with.
pub open spec fn leading(name: Seq<char>, from: int) -> int
    decreases name.len() - from,
{
    if from < name.len() && name[from] == '_' {
        leading(name, from + 1)
    } else {
        from
    }
}

/// Where a name ends without its closing underscores, not before `low`.
pub open spec fn trailing(name: Seq<char>, low: int, to: int) -> int
    decreases to,
{
    if to > low && to > 0 && name[to - 1] == '_' {
        trailing(name, low, to - 1)
    } else {
        to
    }
}

pub open spec fn trimmed(name: Seq<char>) -> Seq<char> {
    let low = leading(name, 0);
    name.subrange(low, trailing(name, low, name.len() as int))
}

pub open spec fn stripped(name: Seq<char>) -> Seq<char> {
    let suffix = project_suffix();
    if name.len() >= suffix.len() && name.skip(name.len() - suffix.len()) == suffix {
        name.take(name.len() - suffix.len())
    } else {
        name
    }
}

/// What a recording of a project file is called after.
pub open spec fn display_name(file_name: Option<Seq<char>>) -> Seq<char> {
    match file_name {
        None => "untitled"@,
        Some(name) => {
            let base = stripped(name);
            let clean = trimmed(cleaned(base, base.len() as int));
            if clean.len() == 0 {
                "untitled"@
            } else {
                clean
            }
        },
    }
}

fn plain(c: char) -> (r: bool)
    ensures
        r == is_plain(c),
{
    ('a' <= c && c <= 'z') || ('A' <= c && c <= 'Z') || ('0' <= c && c <= '9') || c == '-' || c
        == '_'
}

fn ends_a_project(name: &str) -> (r: bool)
    ensures
        r == (name@.len() >= project_suffix().len() && name@.skip(
            name@.len() - project_suffix().len(),
        ) == project_suffix()),
{
    let suffix = ".groove.json";
    let length: usize = name.unicode_len();
    let tail: usize = suffix.unicode_len();
    if length < tail {
        return false;
    }
    let ghost end = name@.skip(name@.len() - suffix@.len());
    let mut i: usize = 0;
    while i < tail
        invariant
            i <= tail <= length,
            suffix@ == project_suffix(),
            length == name@.len(),
            tail == suffix@.len(),
            end == name@.skip(name@.len() - suffix@.len()),
            forall|k: int| 0 <= k < i ==> end[k] == suffix@[k],
        decreases tail - i,
    {
        if name.get_char(length - tail + i) != suffix.get_char(i) {
            assert(end[i as int] != suffix@[i as int]);
            return false;
        }
        i = i + 1;
    }
    assert(end =~= suffix@);
    true
}

fn clean(name: &str, length: usize) -> (r: String)
    requires
        length <= name@.len(),
    ensures
        r@ == cleaned(name@, length as int),
{
    let mut r = String::new();
    let mut separator: bool = false;
    let mut i: usize = 0;
    proof {
        reveal_strlit("_");
    }
    while i < length
        invariant
            i <= length <= name@.len(),
            separator == (i > 0 && !is_plain(name@[i - 1])),
            r@ == cleaned(name@, i as int),
            "_"@ =~= seq!['_'],
        decreases length - i,
    {
        if plain(name.get_char(i)) {
            r.append(name.substring_char(i, i + 1));
            separator = false;
        } else if !separator {
            r.append("_");
            separator = true;
        }
        assert(r@ =~= cleaned(name@, i + 1));
        i = i + 1;
    }
    r
}

proof fn bounds_of_a_trimmed_name(name: Seq<char>, from: int, to: int)
    requires
        0 <= from <= to <= name.len(),
    ensures
        from <= leading(name, from) <= name.len(),
        from <= trailing(name, from, to) <= to,
    decreases name.len() - from, to,
{
    if from < name.len() && name[from] == '_' {
        bounds_of_a_trimmed_name(name, from + 1, name.len() as int);
    }
    if to > from && name[to - 1] == '_' {
        trailing_stays_above(name, from, to - 1);
    }
}

proof fn trailing_stays_above(name: Seq<char>, low: int, to: int)
    requires
        0 <= low <= to,
    ensures
        low <= trailing(name, low, to) <= to,
    decreases to,
{
    if to > low && name[to - 1] == '_' {
        trailing_stays_above(name, low, to - 1);
    }
}

fn trim(name: &str) -> (r: &str)
    ensures
        r@ == trimmed(name@),
{
    let length: usize = name.unicode_len();
    let mut low: usize = 0;
    while low < length && name.get_char(low) == '_'
        invariant
            low <= length == name@.len(),
            leading(name@, 0) == leading(name@, low as int),
        decreases length - low,
    {
        low = low + 1;
    }
    let mut high: usize = length;
    while high > low && name.get_char(high - 1) == '_'
        invariant
            low <= high <= length == name@.len(),
            trailing(name@, low as int, length as int) == trailing(name@, low as int, high as int),
        decreases high,
    {
        high = high - 1;
    }
    name.substring_char(low, high)
}

/// A name for recordings of a project file: its own, without the ending, and
/// with nothing that a file system could object to.
pub fn project_name(file_name: Option<&str>) -> (name: String)
    ensures
        name@ == display_name(
            match file_name {
                Some(f) => Some(f@),
                None => None,
            },
        ),
{
    match file_name {
        None => String::from_str("untitled"),
        Some(full) => {
            let length: usize = full.unicode_len();
            let base: usize = if ends_a_project(full) {
                length - ".groove.json".unicode_len()
            } else {
                length
            };
            let kept = full.substring_char(0, base);
            assert(kept@ =~= stripped(full@));
            let sanitized = clean(kept, base);
            let result = trim(sanitized.as_str());
            if result.unicode_len() == 0 {
                String::from_str("untitled")
            } else {
                String::from_str(result)
            }
        },
    }
}

/// The decimal digits of a number.
pub open spec fn decimal(n: nat) -> Seq<char>
    decreases n,
{
    if n < 10 {
        seq![digit(n as int)]
    } else {
        decimal(n / 10).push(digit((n % 10) as int))
    }
}

pub open spec fn digit(d: int) -> char {
    if d == 0 {
        '0'
    } else if d == 1 {
        '1'
    } else if d == 2 {
        '2'
    } else if d == 3 {
        '3'
    } else if d == 4 {
        '4'
    } else if d == 5 {
        '5'
    } else if d == 6 {
        '6'
    } else if d == 7 {
        '7'
    } else if d == 8 {
        '8'
    } else {
        '9'
    }
}

fn digit_text(d: u8) -> (text: &'static str)
    requires
        d < 10,
    ensures
        text@ == seq![digit(d as int)],
{
    proof {
        reveal_strlit("0");
        reveal_strlit("1");
        reveal_strlit("2");
        reveal_strlit("3");
        reveal_strlit("4");
        reveal_strlit("5");
        reveal_strlit("6");
        reveal_strlit("7");
        reveal_strlit("8");
        reveal_strlit("9");
    }
    let text: &'static str = match d {
        0 => "0",
        1 => "1",
        2 => "2",
        3 => "3",
        4 => "4",
        5 => "5",
        6 => "6",
        7 => "7",
        8 => "8",
        _ => "9",
    };
    assert(text@ =~= seq![digit(d as int)]);
    text
}

/// Writes a number at the end of a text.
pub fn append_decimal(text: &mut String, n: u128)
    ensures
        final(text)@ == old(text)@ + decimal(n as nat),
    decreases n,
{
    if n >= 10 {
        append_decimal(text, n / 10);
    }
    text.append(digit_text((n % 10) as u8));
    assert(text@ =~= old(text)@ + decimal(n as nat));
}

/// The name of a recording; a suffix other than zero tells it from others
/// that were started in the same millisecond.
pub open spec fn recording_name(name: Seq<char>, timestamp: nat, suffix: nat) -> Seq<char> {
    let base = name + "-"@ + decimal(timestamp);
    if suffix == 0 {
        base + ".wav"@
    } else {
        base + "-"@ + decimal(suffix) + ".wav"@
    }
}

pub fn recording_file_name(name: &str, timestamp: u128, suffix: u32) -> (file: String)
    ensures
        file@ == recording_name(name@, timestamp as nat, suffix as nat),
{
    let mut file = String::from_str(name);
    file.append("-");
    append_decimal(&mut file, timestamp);
    if suffix != 0 {
        file.append("-");
        append_decimal(&mut file, suffix as u128);
    }
    file.append(".wav");
    file
}

/// Why no name was chosen: a place could not be inspected, or every name is
/// taken.
#[derive(Clone, Copy, Debug, PartialEq, Eq)]
pub enum NamingError<E> {
    Inspect(E),
    Exhausted,
}

/// The first name of a recording that is not taken. `probe` tells whether
/// there is a file of a name, or why that cannot be told.
pub fn unique_path<E, F: Fn(&str) -> Result<bool, E>>(
    name: &str,
    timestamp: u128,
    probe: F,
) -> (file: Result<String, NamingError<E>>)
    requires
        forall|candidate: &str| call_requires(probe, (candidate,)),
    ensures
        match file {
            Ok(chosen) => exists|suffix: u32|
                #![trigger recording_name(name@, timestamp as nat, suffix as nat)]
                {
                    &&& chosen@ == recording_name(name@, timestamp as nat, suffix as nat)
                    &&& answered(probe, chosen@, Ok(false))
                    &&& all_taken(probe, name@, timestamp as nat, suffix as int)
                },
            Err(NamingError::Inspect(error)) => exists|suffix: u32|
                #![trigger recording_name(name@, timestamp as nat, suffix as nat)]
                {
                    &&& answered(
                        probe,
                        recording_name(name@, timestamp as nat, suffix as nat),
                        Err(error),
                    )
                    &&& all_taken(probe, name@, timestamp as nat, suffix as int)
                },
            Err(NamingError::Exhausted) => all_taken(
                probe,
                name@,
                timestamp as nat,
                u32::MAX as int,
            ),
        },
{
    let mut suffix: u32 = 0;
    while suffix < u32::MAX
        invariant
            forall|candidate: &str| call_requires(probe, (candidate,)),
            all_taken(probe, name@, timestamp as nat, suffix as int),
        decreases u32::MAX - suffix,
    {
        let file = recording_file_name(name, timestamp, suffix);
        let found = probe(file.as_str());
        match found {
            Ok(false) => {
                assert(answered(probe, file@, Ok(false)));
                return Ok(file);
            },
            Ok(true) => {
                assert(answered(probe, file@, Ok(true)));
            },
            Err(error) => {
                assert(answered(probe, file@, Err(error)));
                return Err(NamingError::Inspect(error));
            },
        }
        suffix = suffix + 1;
    }
    Err(NamingError::Exhausted)
}

/// Asked about a name, the answer was this one.
pub open spec fn answered<E, F: Fn(&str) -> Result<bool, E>>(
    probe: F,
    name: Seq<char>,
    answer: Result<bool, E>,
) -> bool {
    exists|candidate: &str|
        #![trigger candidate@]
        candidate@ == name && call_ensures(probe, (candidate,), answer)
}

/// Every name with a suffix below `n` was found taken.
pub open spec fn all_taken<E, F: Fn(&str) -> Result<bool, E>>(
    probe: F,
    name: Seq<char>,
    timestamp: nat,
    n: int,
) -> bool {
    forall|suffix: int|
        0 <= suffix < n ==> answered(
            probe,
            #[trigger] recording_name(name, timestamp, suffix as nat),
            Ok(true),
        )
}

/// The number that digits stand for.
spec fn value(digits: Seq<char>) -> nat
    decreases digits.len(),
{
    if digits.len() == 0 {
        0
    } else {
        value(digits.drop_last()) * 10 + place_value(digits.last())
    }
}

spec fn place_value(c: char) -> nat {
    (c as int - '0' as int) as nat
}

proof fn decimals_stand_for_their_number(n: nat)
    ensures
        value(decimal(n)) == n,
    decreases n,
{
    reveal_with_fuel(value, 3);
    if n < 10 {
        assert(decimal(n).drop_last() =~= Seq::<char>::empty());
    } else {
        decimals_stand_for_their_number(n / 10);
        assert(decimal(n).drop_last() =~= decimal(n / 10));
    }
}

/// Recordings with different suffixes have different names: none overwrites
/// another.
pub proof fn recording_names_are_distinct(name: Seq<char>, timestamp: nat, a: nat, b: nat)
    requires
        a != b,
    ensures
        recording_name(name, timestamp, a) != recording_name(name, timestamp, b),
{
    reveal_strlit("-");
    reveal_strlit(".wav");
    let base = name + "-"@ + decimal(timestamp);
    let one = recording_name(name, timestamp, a);
    let other = recording_name(name, timestamp, b);
    if one == other {
        let place = base.len() as int;
        if a == 0 || b == 0 {
            assert(one[place] == if a == 0 {
                '.'
            } else {
                '-'
            });
            assert(other[place] == if b == 0 {
                '.'
            } else {
                '-'
            });
        } else {
            assert(decimal(a) =~= one.subrange(place + 1, one.len() - 4));
            assert(decimal(b) =~= other.subrange(place + 1, other.len() - 4));
            decimals_stand_for_their_number(a);
            decimals_stand_for_their_number(b);
        }
    }
}

} // verus!
