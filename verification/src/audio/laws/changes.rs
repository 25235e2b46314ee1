//! What a bar line does: queued patterns, queued songs and songs that go on.
use crate::audio::snapshot::ProjectModel;
use crate::audio::transport::{BarChange, StepClock, Transport};
use crate::model::index_map::{IndexEdit, PatternIndexMap, SongIndexMap};
use vstd::prelude::*;

verus! {

/// At a bar line a queued song entry starts: the entry asked for, or the last
/// one where the song is shorter, from its first bar, with the pattern that it
/// names. Nothing stays queued.
pub proof fn queued_songs_start_at_the_bar(
    transport: Transport,
    project: ProjectModel,
    global_step: int,
    entry: usize,
)
    requires
        project.wf(),
        global_step % 16 == 0,
        transport.queued_song == Some(entry),
    ensures
        ({
            let (next, change) = transport.at_boundary(project, global_step);
            &&& next.song_mode
            &&& entry < project.song.len() ==> next.active_song == entry
            &&& entry >= project.song.len() ==> next.active_song == project.song.len() - 1
            &&& next.active_pattern + 1 == project.song[next.active_song as int].pattern
            &&& next.song_bar == 0
            &&& next.queued_song is None
            &&& next.queued_pattern is None
            &&& next.playing == transport.playing
            &&& change == (BarChange::Enter { release: true })
        }),
{
    assert(project.song[if entry < project.song.len() {
        entry as int
    } else {
        project.song.len() - 1
    }].wf(project.patterns.len()));
}

/// At a bar line a queued pattern starts, and playback leaves the song, unless
/// a song is queued too.
pub proof fn queued_patterns_start_at_the_bar(
    transport: Transport,
    project: ProjectModel,
    global_step: int,
    pattern: usize,
)
    requires
        global_step % 16 == 0,
        transport.queued_song is None,
        transport.queued_pattern == Some(pattern),
    ensures
        ({
            let (next, change) = transport.at_boundary(project, global_step);
            &&& next.active_pattern == pattern
            &&& !next.song_mode
            &&& next.queued_pattern is None
            &&& next.queued_song is None
            &&& next.playing == transport.playing
            &&& next.active_song == transport.active_song
            &&& next.song_bar == transport.song_bar
            &&& change == (BarChange::Enter { release: true })
        }),
{
}

/// Between bar lines nothing changes, whatever is queued; and at a bar line
/// with nothing queued nothing changes outside a song, nor at its first step.
pub proof fn nothing_changes_inside_a_bar(
    transport: Transport,
    project: ProjectModel,
    global_step: int,
)
    requires
        global_step % 16 != 0 || (transport.queued_song is None && transport.queued_pattern is None
            && (!transport.song_mode || global_step <= 0)),
    ensures
        transport.at_boundary(project, global_step) == (transport, BarChange::Continue),
{
}

/// A song that has another bar of its entry plays it, with the pattern of that
/// entry. Where that pattern already plays it goes on without a break.
pub proof fn songs_play_the_bars_of_an_entry(
    transport: Transport,
    project: ProjectModel,
    global_step: int,
)
    requires
        project.wf(),
        transport.wf(project),
        global_step > 0,
        global_step % 16 == 0,
        transport.song_mode,
        transport.queued_song is None,
        transport.queued_pattern is None,
        transport.song_bar + 1 < project.song[transport.active_song as int].bars,
    ensures
        ({
            let (next, change) = transport.at_boundary(project, global_step);
            let entry = project.song[transport.active_song as int];
            &&& next == (Transport {
                active_pattern: (entry.pattern - 1) as usize,
                song_bar: (transport.song_bar + 1) as u8,
                ..transport
            })
            &&& change == if transport.active_pattern + 1 == entry.pattern {
                BarChange::Continue
            } else {
                BarChange::Enter { release: true }
            }
        }),
{
}

/// After the last bar of an entry the song goes on with the next, from its
/// first bar; what sounds is released where that changes the pattern.
pub proof fn songs_go_on_to_the_next_entry(
    transport: Transport,
    project: ProjectModel,
    global_step: int,
)
    requires
        project.wf(),
        transport.wf(project),
        global_step > 0,
        global_step % 16 == 0,
        transport.song_mode,
        transport.queued_song is None,
        transport.queued_pattern is None,
        transport.song_bar + 1 >= project.song[transport.active_song as int].bars,
        transport.active_song + 1 < project.song.len(),
    ensures
        ({
            let (next, change) = transport.at_boundary(project, global_step);
            let entry = project.song[transport.active_song + 1];
            &&& next == (Transport {
                active_pattern: (entry.pattern - 1) as usize,
                active_song: (transport.active_song + 1) as usize,
                song_bar: 0,
                ..transport
            })
            &&& change == (BarChange::Enter {
                release: transport.active_pattern + 1 != entry.pattern,
            })
        }),
{
    assert(project.song[transport.active_song + 1].wf(project.patterns.len()));
}

/// After the last bar of its last entry a song is over.
pub proof fn songs_end_after_their_last_entry(
    transport: Transport,
    project: ProjectModel,
    global_step: int,
)
    requires
        project.wf(),
        transport.wf(project),
        global_step > 0,
        global_step % 16 == 0,
        transport.song_mode,
        transport.queued_song is None,
        transport.queued_pattern is None,
        transport.song_bar + 1 >= project.song[transport.active_song as int].bars,
        transport.active_song + 1 == project.song.len(),
    ensures
        transport.at_boundary(project, global_step) == (transport, BarChange::Finish),
{
}

/// A change is due at a step exactly where that step begins a bar and
/// something is queued, or a song is at the last bar of an entry.
pub proof fn changes_are_due_at_bars(
    transport: Transport,
    project: ProjectModel,
    global_step: int,
)
    ensures
        transport.transition_due(project, global_step) ==> global_step % 16 == 0,
        global_step % 16 == 0 && (transport.queued_song is Some || transport.queued_pattern
            is Some) ==> transport.transition_due(project, global_step),
        global_step % 16 == 0 && transport.queued_song is None && transport.queued_pattern is None
            ==> (transport.transition_due(project, global_step) <==> transport.song_mode
            && global_step > 0 && transport.song_bar + 1
            >= project.song[transport.active_song as int].bars),
{
}

/// At first the transport rests at the beginning of everything, outside a song
/// and with nothing queued; it is where a stop leads back to.
pub proof fn transports_start_at_the_beginning()
    ensures
        ({
            let first = Transport::initial();
            &&& !first.playing
            &&& first.active_pattern == 0
            &&& first.active_song == 0
            &&& first.song_bar == 0
            &&& !first.song_mode
            &&& first.queued_pattern is None
            &&& first.queued_song is None
            &&& first.stopped() == first
        }),
{
}

/// A stop goes back to the first pattern and the first entry and forgets what
/// was queued; whether a song plays is kept.
pub proof fn stops_go_back_to_the_beginning(transport: Transport)
    ensures
        ({
            let next = transport.stopped();
            &&& !next.playing
            &&& next.active_pattern == 0
            &&& next.active_song == 0
            &&& next.song_bar == 0
            &&& next.queued_pattern is None
            &&& next.queued_song is None
            &&& next.song_mode == transport.song_mode
        }),
{
}

/// Playback follows what it plays through an edit: behind an insertion every
/// index moves one up, behind a deletion one down, and none leaves the
/// project.
pub proof fn edits_move_what_plays(
    transport: Transport,
    project: ProjectModel,
    pattern_map: PatternIndexMap,
    song_map: SongIndexMap,
)
    requires
        project.wf(),
        transport.active_pattern <= project.patterns.len(),
        transport.active_song <= project.song.len(),
    ensures
        ({
            let next = transport.moved(project, pattern_map, song_map);
            let patterns = project.patterns.len() as int;
            let songs = project.song.len() as int;
            &&& next.active_pattern < patterns
            &&& next.active_song < songs
            &&& next.playing == transport.playing
            &&& next.song_mode == transport.song_mode
            &&& next.queued_pattern is Some <==> transport.queued_pattern is Some
            &&& next.queued_song is Some <==> transport.queued_song is Some
            &&& pattern_map.edit is Identity && transport.active_pattern < patterns
                ==> next.active_pattern == transport.active_pattern
            &&& pattern_map.edit matches IndexEdit::Insert { after } ==> {
                &&& transport.active_pattern <= after && transport.active_pattern < patterns
                    ==> next.active_pattern == transport.active_pattern
                &&& transport.active_pattern > after && transport.active_pattern + 1 < patterns
                    ==> next.active_pattern == transport.active_pattern + 1
                &&& transport.queued_pattern matches Some(queued) ==> queued > after && queued + 1
                    < patterns ==> next.queued_pattern == Some((queued + 1) as usize)
            }
            &&& pattern_map.edit matches IndexEdit::Delete { at } ==> {
                &&& transport.active_pattern < at && transport.active_pattern < patterns
                    ==> next.active_pattern == transport.active_pattern
                &&& transport.active_pattern > at ==> next.active_pattern
                    == transport.active_pattern - 1
                &&& transport.queued_pattern matches Some(queued) ==> at < queued <= patterns
                    ==> next.queued_pattern == Some((queued - 1) as usize)
            }
            &&& song_map.edit is Identity && transport.active_song < songs ==> next.active_song
                == transport.active_song
            &&& song_map.edit matches IndexEdit::Insert { after } ==> {
                &&& transport.active_song <= after && transport.active_song < songs
                    ==> next.active_song == transport.active_song
                &&& transport.active_song > after && transport.active_song + 1 < songs
                    ==> next.active_song == transport.active_song + 1
                &&& transport.queued_song matches Some(queued) ==> queued > after && queued + 1
                    < songs ==> next.queued_song == Some((queued + 1) as usize)
            }
            &&& song_map.edit matches IndexEdit::Delete { at } ==> {
                &&& transport.active_song < at && transport.active_song < songs
                    ==> next.active_song == transport.active_song
                &&& transport.active_song > at ==> next.active_song == transport.active_song - 1
                &&& transport.queued_song matches Some(queued) ==> at < queued <= songs
                    ==> next.queued_song == Some((queued - 1) as usize)
            }
        }),
{
}

/// Whatever an edit does, playback stays inside the project.
pub proof fn edits_stay_in_the_project(
    transport: Transport,
    project: ProjectModel,
    pattern_map: PatternIndexMap,
    song_map: SongIndexMap,
)
    requires
        project.wf(),
    ensures
        transport.moved(project, pattern_map, song_map).active_pattern < project.patterns.len(),
        transport.moved(project, pattern_map, song_map).active_song < project.song.len(),
{
}

/// The bar of a song survives an edit as far as its entry has that many bars;
/// where the entry itself was deleted, its successor starts from its first.
pub proof fn edits_keep_the_bar(
    transport: Transport,
    project: ProjectModel,
    pattern_map: PatternIndexMap,
    song_map: SongIndexMap,
)
    requires
        project.wf(),
        transport.active_song <= project.song.len(),
    ensures
        ({
            let next = transport.moved(project, pattern_map, song_map);
            let bars = project.song[next.active_song as int].bars;
            let gone = song_map.edit == (IndexEdit::Delete { at: transport.active_song });
            &&& gone ==> next.song_bar == 0
            &&& !gone && transport.song_bar < bars ==> next.song_bar == transport.song_bar
            &&& !gone && 0 < bars <= transport.song_bar ==> next.song_bar == bars - 1
            &&& bars > 0 ==> next.song_bar < bars
        }),
{
}

/// A sixteenth lasts fifteen seconds through the tempo: the clock counts down
/// by the tempo with every sample, and a step that falls due takes the next
/// number and adds fifteen times the sample rate.
pub proof fn clocks_count_sixteenths(clock: StepClock)
    requires
        clock.wf(),
        15 * clock.sample_rate >= clock.tempo_bpm,
    ensures
        ({
            let next = clock.ticked();
            &&& clock.countdown >= clock.tempo_bpm ==> {
                &&& next.countdown == clock.countdown - clock.tempo_bpm
                &&& next.next_step == clock.next_step
            }
            &&& clock.countdown < clock.tempo_bpm ==> {
                &&& next.countdown == clock.countdown + 15 * clock.sample_rate - clock.tempo_bpm
                &&& clock.next_step < usize::MAX ==> next.next_step == clock.next_step + 1
            }
            &&& next.tempo_bpm == clock.tempo_bpm
            &&& next.sample_rate == clock.sample_rate
        }),
{
}

/// The length of a step in samples is the whole number nearest to fifteen
/// sample rates through the tempo, the higher one where two are as near.
pub proof fn steps_are_rounded_to_the_nearest_sample(clock: StepClock)
    requires
        clock.wf(),
    ensures
        2 * (clock.tempo_bpm * clock.rounded_step() - 15 * clock.sample_rate) <= clock.tempo_bpm,
        2 * (15 * clock.sample_rate - clock.tempo_bpm * clock.rounded_step()) < clock.tempo_bpm,
{
    let bpm = clock.tempo_bpm as int;
    let total = 30 * clock.sample_rate + bpm;
    vstd::arithmetic::div_mod::lemma_fundamental_div_mod(total, 2 * bpm);
    assert(2 * (bpm * (total / (2 * bpm))) == (2 * bpm) * (total / (2 * bpm))) by (nonlinear_arith);
    assert(0 <= total % (2 * bpm) < 2 * bpm);
}

} // verus!
