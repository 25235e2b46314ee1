//! The ring buffers between the user interface, the audio callback and the
//! writer of recordings.
//!
//! The rings are those of the `rtrb` crate: bounded, with one producer and one
//! consumer, each of which may be on a thread of its own. Nothing here says
//! what the other end does meanwhile, or how the two ends of one ring belong
//! together: what is stated holds whatever the other end does.
use super::command::{AudioCommand, CommandModel};
use super::recording::RecordingItem;
use super::snapshot::{AudioProject, ProjectModel};
use rtrb::{Consumer, Producer};
use vstd::prelude::*;

verus! {

/// The writing end of a ring, `rtrb::Producer`.
#[verifier::external_type_specification]
#[verifier::external_body]
#[verifier::reject_recursive_types(T)]
pub struct ExProducer<T>(rtrb::Producer<T>);

/// The reading end of a ring, `rtrb::Consumer`.
#[verifier::external_type_specification]
#[verifier::external_body]
#[verifier::reject_recursive_types(T)]
pub struct ExConsumer<T>(rtrb::Consumer<T>);

/// Everything that was put into a ring of commands, in order.
pub uninterp spec fn commands_sent(ring: Producer<AudioCommand>) -> Seq<CommandModel>;

/// The free slots that the writing end of a ring of commands knows of. The
/// reading end can only add to them.
pub uninterp spec fn commands_room(ring: Producer<AudioCommand>) -> nat;

/// Everything that was taken out of a ring of commands, in order.
pub uninterp spec fn commands_taken(ring: Consumer<AudioCommand>) -> Seq<CommandModel>;

/// How many commands the reading end knows to be in the ring. The writing end can
/// only add to them.
pub uninterp spec fn commands_waiting(ring: Consumer<AudioCommand>) -> nat;

/// Everything that was put into a ring of retired projects, in order.
pub uninterp spec fn projects_sent(ring: Producer<Box<AudioProject>>) -> Seq<ProjectModel>;

/// Everything that was taken out of a ring of retired projects, in order.
pub uninterp spec fn projects_taken(ring: Consumer<Box<AudioProject>>) -> Seq<ProjectModel>;

/// How many retired projects the reading end knows to be in the ring. The writing end can
/// only add to them.
pub uninterp spec fn projects_waiting(ring: Consumer<Box<AudioProject>>) -> nat;

/// The free slots that the writing end of a ring of retired projects knows of.
/// The reading end can only add to them.
pub uninterp spec fn projects_room(ring: Producer<Box<AudioProject>>) -> nat;

/// Everything that was put into a ring of recorded items, in order.
pub uninterp spec fn items_sent(ring: Producer<RecordingItem>) -> Seq<RecordingItem>;

/// Everything that was taken out of a ring of recorded items, in order.
pub uninterp spec fn items_taken(ring: Consumer<RecordingItem>) -> Seq<RecordingItem>;

/// How many recorded items the reading end knows to be in the ring. The writing end can
/// only add to them.
pub uninterp spec fn items_waiting(ring: Consumer<RecordingItem>) -> nat;

/// The free slots that the writing end of a ring of recorded items knows of.
/// The reading end can only add to them.
pub uninterp spec fn items_room(ring: Producer<RecordingItem>) -> nat;

/// Everything that was put into a ring of messages, in order.
pub uninterp spec fn messages_sent(ring: Producer<String>) -> Seq<Seq<char>>;

/// The free slots that the writing end of a ring of messages knows of. The
/// reading end can only add to them.
pub uninterp spec fn messages_room(ring: Producer<String>) -> nat;

/// `rtrb::Producer::push` on a ring of commands. A slot that is known to be free
/// is taken; without one the ring may still turn out to have room. A full ring
/// stays as it was and hands the command back.
#[verifier::external_body]
pub(crate) fn push_command(ring: &mut Producer<AudioCommand>, command: AudioCommand) -> (r: Result<
    (),
    AudioCommand,
>)
    ensures
        match r {
            Ok(()) => commands_sent(*final(ring)) == commands_sent(*old(ring)).push(command@),
            Err(rejected) => {
                &&& commands_sent(*final(ring)) == commands_sent(*old(ring))
                &&& commands_room(*final(ring)) == 0
                &&& rejected == command
            },
        },
        commands_room(*old(ring)) > 0 ==> r is Ok && commands_room(*final(ring)) + 1
            == commands_room(*old(ring)),
{
    match ring.push(command) {
        Ok(()) => Ok(()),
        Err(rtrb::PushError::Full(rejected)) => Err(rejected),
    }
}

/// `rtrb::Producer::slots` on a ring of commands: looks how many slots are free,
/// never fewer than were known before. They stay free until something is put
/// into the ring.
#[verifier::external_body]
pub(crate) fn command_slots(ring: &mut Producer<AudioCommand>) -> (slots: usize)
    ensures
        slots == commands_room(*final(ring)),
        slots >= commands_room(*old(ring)),
        commands_sent(*final(ring)) == commands_sent(*old(ring)),
{
    ring.slots()
}

/// `rtrb::Consumer::pop` on a ring of commands: takes the oldest command, or
/// finds the ring empty and leaves it as it was. A command that is known to be
/// there is found; without one the ring may still turn out to hold some.
#[verifier::external_body]
pub(crate) fn pop_command(ring: &mut Consumer<AudioCommand>) -> (command: Option<AudioCommand>)
    ensures
        match command {
            Some(taken) => commands_taken(*final(ring)) == commands_taken(*old(ring)).push(taken@),
            None => commands_taken(*final(ring)) == commands_taken(*old(ring)),
        },
        command is None ==> commands_waiting(*final(ring)) == 0,
        commands_waiting(*old(ring)) > 0 ==> command is Some && commands_waiting(*final(ring)) + 1
            == commands_waiting(*old(ring)),
{
    match ring.pop() {
        Ok(command) => Some(command),
        Err(rtrb::PopError::Empty) => None,
    }
}

/// `rtrb::Producer::push` on a ring of retired projects. A slot that is known
/// to be free is taken; without one the ring may still turn out to have room.
/// A full ring hands the project back.
#[verifier::external_body]
pub(crate) fn push_project(ring: &mut Producer<Box<AudioProject>>, project: Box<AudioProject>) -> (r:
    Result<(), Box<AudioProject>>)
    ensures
        match r {
            Ok(()) => projects_sent(*final(ring)) == projects_sent(*old(ring)).push(project@),
            Err(rejected) => {
                &&& projects_sent(*final(ring)) == projects_sent(*old(ring))
                &&& projects_room(*final(ring)) == 0
                &&& rejected == project
            },
        },
        projects_room(*old(ring)) > 0 ==> r is Ok && projects_room(*final(ring)) + 1
            == projects_room(*old(ring)),
{
    match ring.push(project) {
        Ok(()) => Ok(()),
        Err(rtrb::PushError::Full(rejected)) => Err(rejected),
    }
}

/// `rtrb::Producer::slots` on a ring of retired projects: looks how many slots
/// are free, never fewer than were known before. They stay free until
/// something is put into the ring.
#[verifier::external_body]
pub(crate) fn project_slots(ring: &mut Producer<Box<AudioProject>>) -> (slots: usize)
    ensures
        slots == projects_room(*final(ring)),
        slots >= projects_room(*old(ring)),
        projects_sent(*final(ring)) == projects_sent(*old(ring)),
{
    ring.slots()
}

/// `rtrb::Consumer::pop` on a ring of retired projects: takes the oldest, or
/// finds the ring empty and leaves it as it was. One that is known to be there
/// is found; without one the ring may still turn out to hold some.
#[verifier::external_body]
pub(crate) fn pop_project(ring: &mut Consumer<Box<AudioProject>>) -> (project: Option<
    Box<AudioProject>,
>)
    ensures
        match project {
            Some(taken) => projects_taken(*final(ring)) == projects_taken(*old(ring)).push(taken@),
            None => projects_taken(*final(ring)) == projects_taken(*old(ring)),
        },
        project is None ==> projects_waiting(*final(ring)) == 0,
        projects_waiting(*old(ring)) > 0 ==> project is Some && projects_waiting(*final(ring)) + 1
            == projects_waiting(*old(ring)),
{
    match ring.pop() {
        Ok(project) => Some(project),
        Err(rtrb::PopError::Empty) => None,
    }
}

/// `rtrb::Producer::push` on a ring of recorded items. A slot that is known to
/// be free is taken; without one the ring may still turn out to have room.
#[verifier::external_body]
pub(crate) fn push_item(ring: &mut Producer<RecordingItem>, item: RecordingItem) -> (pushed: bool)
    ensures
        items_sent(*final(ring)) == if pushed {
            items_sent(*old(ring)).push(item)
        } else {
            items_sent(*old(ring))
        },
        !pushed ==> items_room(*final(ring)) == 0,
        items_room(*old(ring)) > 0 ==> pushed && items_room(*final(ring)) + 1 == items_room(
            *old(ring),
        ),
{
    ring.push(item).is_ok()
}

/// `rtrb::Producer::push` on a ring of messages. A slot that is known to be
/// free is taken; without one the ring may still turn out to have room.
#[verifier::external_body]
pub(crate) fn push_message(ring: &mut Producer<String>, words: String) -> (pushed: bool)
    ensures
        messages_sent(*final(ring)) == if pushed {
            messages_sent(*old(ring)).push(words@)
        } else {
            messages_sent(*old(ring))
        },
        !pushed ==> messages_room(*final(ring)) == 0,
        messages_room(*old(ring)) > 0 ==> pushed && messages_room(*final(ring)) + 1
            == messages_room(*old(ring)),
{
    ring.push(words).is_ok()
}

/// `rtrb::Producer::slots` on a ring of recorded items: looks how many slots
/// are free, never fewer than were known before. They stay free until
/// something is put into the ring.
#[verifier::external_body]
pub(crate) fn item_slots(ring: &mut Producer<RecordingItem>) -> (slots: usize)
    ensures
        slots == items_room(*final(ring)),
        slots >= items_room(*old(ring)),
        items_sent(*final(ring)) == items_sent(*old(ring)),
{
    ring.slots()
}

/// `rtrb::Consumer::pop` on a ring of recorded items: takes the oldest, or
/// finds the ring empty and leaves it as it was. One that is known to be there
/// is found; without one the ring may still turn out to hold some.
#[verifier::external_body]
pub(crate) fn pop_item(ring: &mut Consumer<RecordingItem>) -> (item: Option<RecordingItem>)
    ensures
        match item {
            Some(taken) => items_taken(*final(ring)) == items_taken(*old(ring)).push(taken),
            None => items_taken(*final(ring)) == items_taken(*old(ring)),
        },
        item is None ==> items_waiting(*final(ring)) == 0,
        items_waiting(*old(ring)) > 0 ==> item is Some && items_waiting(*final(ring)) + 1
            == items_waiting(*old(ring)),
{
    match ring.pop() {
        Ok(item) => Some(item),
        Err(rtrb::PopError::Empty) => None,
    }
}

} // verus!
