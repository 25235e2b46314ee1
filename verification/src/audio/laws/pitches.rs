//! Which pitches sound: scales, degrees and the shapes built on them.
use crate::audio::pool::{chord_midi, climbed, scale_midi, stacked};
use crate::audio::voice::{degree_midi, spread_of};
use crate::model::event::ChordShape;
use crate::model::instrument::Scale;
use crate::model::project::Globals;
use vstd::prelude::*;

verus! {

/// The interval from a degree of a scale to the next, going round the octave.
pub open spec fn interval(scale: Scale, degree: int) -> int {
    scale.semitones()[degree % 7 + 1] - scale.semitones()[degree % 7]
}

/// A major scale climbs by whole tones but for the half tones below its
/// fourth degree and its octave.
pub proof fn major_scales_have_two_half_tones(degree: int)
    requires
        0 <= degree < 7,
    ensures
        Scale::Major.semitones()[0] == 0,
        interval(Scale::Major, degree) == if degree == 2 || degree == 6 {
            1int
        } else {
            2
        },
{
}

/// The other scales are modes of the major scale: each has its intervals,
/// taken from another degree on.
pub proof fn scales_are_modes_of_the_major(degree: int)
    requires
        0 <= degree < 7,
    ensures
        interval(Scale::Dorian, degree) == interval(Scale::Major, degree + 1),
        interval(Scale::Phrygian, degree) == interval(Scale::Major, degree + 2),
        interval(Scale::Lydian, degree) == interval(Scale::Major, degree + 3),
        interval(Scale::Mixolydian, degree) == interval(Scale::Major, degree + 4),
        interval(Scale::Minor, degree) == interval(Scale::Major, degree + 5),
        interval(Scale::Locrian, degree) == interval(Scale::Major, degree + 6),
        Scale::Dorian.semitones()[0] == 0,
        Scale::Phrygian.semitones()[0] == 0,
        Scale::Lydian.semitones()[0] == 0,
        Scale::Mixolydian.semitones()[0] == 0,
        Scale::Minor.semitones()[0] == 0,
        Scale::Locrian.semitones()[0] == 0,
{
}

/// A degree lies as far above the tonic as its scale says; the tonic of octave
/// four in C is number sixty, an octave is twelve, and a key moves everything
/// by its semitones.
pub proof fn degrees_lie_on_the_scale(globals: Globals, degree: int, octave: int)
    requires
        1 <= degree <= 8,
    ensures
        degree_midi(globals, 1, 4) == 60 + globals.key,
        degree_midi(globals, degree, octave) - degree_midi(globals, 1, octave)
            == globals.scale.semitones()[degree - 1],
        degree_midi(globals, degree, octave + 1) == degree_midi(globals, degree, octave) + 12,
        degree_midi(globals, 8, octave) == degree_midi(globals, 1, octave + 1),
{
}

/// Counting on along a scale climbs an octave with every seven places.
pub proof fn places_repeat_by_octaves(globals: Globals, octave: int, place: int)
    requires
        0 <= place,
    ensures
        place < 7 ==> scale_midi(globals, octave, place) == degree_midi(
            globals,
            place + 1,
            octave,
        ),
        scale_midi(globals, octave, place + 7) == scale_midi(globals, octave, place) + 12,
        scale_midi(globals, octave + 1, place) == scale_midi(globals, octave, place) + 12,
{
    assert((place + 7) / 7 == place / 7 + 1);
    assert((place + 7) % 7 == place % 7);
}

/// A shape in root position is a stack of thirds on its root; a dyad is the
/// root with its third or its fifth.
pub proof fn shapes_are_stacks_of_thirds(voice: int)
    ensures
        ChordShape::Single.degrees().len() == 1,
        ChordShape::DyadThird.degrees().len() == 2,
        ChordShape::DyadFifth.degrees().len() == 2,
        ChordShape::TriadRoot.degrees().len() == 3,
        ChordShape::SeventhRoot.degrees().len() == 4,
        stacked(ChordShape::Single, 0) == 0,
        stacked(ChordShape::DyadThird, 0) == 0,
        stacked(ChordShape::DyadThird, 1) == 2,
        stacked(ChordShape::DyadFifth, 0) == 0,
        stacked(ChordShape::DyadFifth, 1) == 4,
        0 <= voice < 3 ==> stacked(ChordShape::TriadRoot, voice) == 2 * voice,
        0 <= voice < 4 ==> stacked(ChordShape::SeventhRoot, voice) == 2 * voice,
{
    reveal_with_fuel(climbed, 5);
}

/// An inversion takes the lowest voice of a shape an octave up: every voice of
/// the one is the next voice of the other, and its highest the lowest again.
pub proof fn inversions_raise_the_lowest_voice(voice: int)
    ensures
        ChordShape::TriadFirst.degrees().len() == 3,
        ChordShape::TriadSecond.degrees().len() == 3,
        ChordShape::SeventhFirst.degrees().len() == 4,
        ChordShape::SeventhSecond.degrees().len() == 4,
        ChordShape::SeventhThird.degrees().len() == 4,
        0 <= voice < 2 ==> {
            &&& stacked(ChordShape::TriadFirst, voice) == stacked(ChordShape::TriadRoot, voice + 1)
            &&& stacked(ChordShape::TriadSecond, voice) == stacked(
                ChordShape::TriadFirst,
                voice + 1,
            )
        },
        stacked(ChordShape::TriadFirst, 2) == stacked(ChordShape::TriadRoot, 0) + 7,
        stacked(ChordShape::TriadSecond, 2) == stacked(ChordShape::TriadFirst, 0) + 7,
        0 <= voice < 3 ==> {
            &&& stacked(ChordShape::SeventhFirst, voice) == stacked(
                ChordShape::SeventhRoot,
                voice + 1,
            )
            &&& stacked(ChordShape::SeventhSecond, voice) == stacked(
                ChordShape::SeventhFirst,
                voice + 1,
            )
            &&& stacked(ChordShape::SeventhThird, voice) == stacked(
                ChordShape::SeventhSecond,
                voice + 1,
            )
        },
        stacked(ChordShape::SeventhFirst, 3) == stacked(ChordShape::SeventhRoot, 0) + 7,
        stacked(ChordShape::SeventhSecond, 3) == stacked(ChordShape::SeventhFirst, 0) + 7,
        stacked(ChordShape::SeventhThird, 3) == stacked(ChordShape::SeventhSecond, 0) + 7,
{
    reveal_with_fuel(climbed, 5);
}

/// A voice of a shape lies that many places of the scale above the degree that
/// the shape stands on: shapes are diatonic in every key and scale.
pub proof fn shapes_are_diatonic(
    globals: Globals,
    degree: int,
    octave: int,
    shape: ChordShape,
    voice: int,
)
    requires
        1 <= degree <= 8,
        0 <= voice < shape.degrees().len(),
    ensures
        chord_midi(globals, degree, octave, shape, voice) == scale_midi(
            globals,
            octave,
            degree - 1 + stacked(shape, voice),
        ),
        shape == ChordShape::Single ==> chord_midi(globals, degree, octave, shape, voice)
            == degree_midi(globals, degree, octave),
        chord_midi(globals, degree, octave + 1, shape, voice) == chord_midi(
            globals,
            degree,
            octave,
            shape,
            voice,
        ) + 12,
{
    reveal_with_fuel(climbed, 5);
    places_repeat_by_octaves(globals, octave, degree - 1);
    places_repeat_by_octaves(globals, octave, 0);
    if degree == 8 {
        places_repeat_by_octaves(globals, octave, 7);
    }
}

/// The outer voices of a shape lean all the way to the sides, the inner ones of
/// four a third as far, and a voice alone stays in the middle.
pub proof fn voices_spread_to_the_sides(voice_count: int)
    ensures
        2 <= voice_count <= 4 ==> spread_of(voice_count, 0).shift() == -500_000,
        2 <= voice_count <= 4 ==> spread_of(voice_count, voice_count - 1).shift() == 500_000,
        spread_of(4, 1).shift() == -166_667,
        spread_of(4, 2).shift() == 166_667,
        spread_of(3, 1).shift() == 0,
        spread_of(1, 0).shift() == 0,
{
}

} // verus!
