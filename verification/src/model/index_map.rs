//! How an edit of a list moves the entries that others refer to.
use vstd::prelude::*;

verus! {

/// The structural edit behind an index map.
#[derive(Clone, Copy, Debug, PartialEq, Eq, Structural)]
pub enum IndexEdit {
    Identity,
    /// A new entry stands behind this one.
    Insert { after: usize },
    /// The entry that stood here is gone.
    Delete { at: usize },
}

/// Where the entry that stood at `index` stands after the edit; a deleted
/// entry is stood in for by the one that took its place.
pub open spec fn moved(edit: IndexEdit, index: int) -> int {
    match edit {
        IndexEdit::Identity => index,
        IndexEdit::Insert { after } => if index > after {
            index + 1
        } else {
            index
        },
        IndexEdit::Delete { at } => if index > at {
            index - 1
        } else {
            index
        },
    }
}

/// The same, kept inside the edited list.
pub open spec fn rebased(edit: IndexEdit, index: int, length: int) -> int {
    if moved(edit, index) >= length {
        length - 1
    } else {
        moved(edit, index)
    }
}

/// Which entry of the old list an entry of the new list came from.
pub open spec fn origin(edit: IndexEdit, index: int) -> Option<int> {
    match edit {
        IndexEdit::Identity => Some(index),
        IndexEdit::Insert { after } => if index <= after {
            Some(index)
        } else if index == after + 1 {
            None
        } else {
            Some(index - 1)
        },
        IndexEdit::Delete { at } => if index < at {
            Some(index)
        } else {
            Some(index + 1)
        },
    }
}

fn rebase_index(edit: IndexEdit, index: usize, length: usize) -> (r: usize)
    requires
        length > 0,
    ensures
        r == rebased(edit, index as int, length as int),
        r < length,
{
    let target: usize = match edit {
        IndexEdit::Identity => index,
        IndexEdit::Insert { after } => if index > after {
            if index >= length {
                length - 1
            } else {
                index + 1
            }
        } else {
            index
        },
        IndexEdit::Delete { at } => if index > at {
            index - 1
        } else {
            index
        },
    };
    if target >= length {
        length - 1
    } else {
        target
    }
}

/// Index map of the patterns of a project.
#[derive(Clone, Copy, Debug, PartialEq, Eq, Structural)]
pub struct PatternIndexMap {
    pub edit: IndexEdit,
}

/// Index map of the entries of a song.
#[derive(Clone, Copy, Debug, PartialEq, Eq, Structural)]
pub struct SongIndexMap {
    pub edit: IndexEdit,
}

impl PatternIndexMap {
    pub fn identity() -> (map: PatternIndexMap)
        ensures
            map.edit == IndexEdit::Identity,
    {
        PatternIndexMap { edit: IndexEdit::Identity }
    }

    pub fn insert(after: usize) -> (map: PatternIndexMap)
        ensures
            map.edit == (IndexEdit::Insert { after }),
    {
        PatternIndexMap { edit: IndexEdit::Insert { after } }
    }

    pub fn delete(at: usize) -> (map: PatternIndexMap)
        ensures
            map.edit == (IndexEdit::Delete { at }),
    {
        PatternIndexMap { edit: IndexEdit::Delete { at } }
    }

    pub fn is_identity(&self) -> (r: bool)
        ensures
            r == (self.edit == IndexEdit::Identity),
    {
        self.edit == IndexEdit::Identity
    }

    /// The place of an entry in the edited list of `length` entries.
    pub fn rebase(&self, index: usize, length: usize) -> (r: usize)
        requires
            length > 0,
        ensures
            r == rebased(self.edit, index as int, length as int),
            r < length,
    {
        rebase_index(self.edit, index, length)
    }

    /// The old place of an entry of the edited list, or none for a new entry.
    pub fn origin_of(&self, index: usize) -> (r: Option<usize>)
        requires
            index < usize::MAX,
        ensures
            match origin(self.edit, index as int) {
                Some(o) => r matches Some(x) && x == o,
                None => r is None,
            },
    {
        match self.edit {
            IndexEdit::Identity => Some(index),
            IndexEdit::Insert { after } => if index <= after {
                Some(index)
            } else if index - 1 == after {
                None
            } else {
                Some(index - 1)
            },
            IndexEdit::Delete { at } => if index < at {
                Some(index)
            } else {
                Some(index + 1)
            },
        }
    }
}

impl SongIndexMap {
    pub fn identity() -> (map: SongIndexMap)
        ensures
            map.edit == IndexEdit::Identity,
    {
        SongIndexMap { edit: IndexEdit::Identity }
    }

    pub fn insert(after: usize) -> (map: SongIndexMap)
        ensures
            map.edit == (IndexEdit::Insert { after }),
    {
        SongIndexMap { edit: IndexEdit::Insert { after } }
    }

    pub fn delete(at: usize) -> (map: SongIndexMap)
        ensures
            map.edit == (IndexEdit::Delete { at }),
    {
        SongIndexMap { edit: IndexEdit::Delete { at } }
    }

    pub fn is_identity(&self) -> (r: bool)
        ensures
            r == (self.edit == IndexEdit::Identity),
    {
        self.edit == IndexEdit::Identity
    }

    pub open spec fn removed(self, index: int) -> bool {
        self.edit matches IndexEdit::Delete { at } && at == index
    }

    /// Whether the edit deleted the entry at `index`.
    pub fn removes(&self, index: usize) -> (r: bool)
        ensures
            r == self.removed(index as int),
    {
        match self.edit {
            IndexEdit::Delete { at } => at == index,
            _ => false,
        }
    }

    pub fn rebase(&self, index: usize, length: usize) -> (r: usize)
        requires
            length > 0,
        ensures
            r == rebased(self.edit, index as int, length as int),
            r < length,
    {
        rebase_index(self.edit, index, length)
    }
}

/// The list after an edit: the old entries in their order, without the deleted
/// one, or with the new one behind its neighbour.
pub open spec fn edited<T>(edit: IndexEdit, list: Seq<T>, fresh: T) -> Seq<T> {
    match edit {
        IndexEdit::Identity => list,
        IndexEdit::Insert { after } => list.insert(after + 1, fresh),
        IndexEdit::Delete { at } => list.remove(at as int),
    }
}

pub open spec fn edit_applies(edit: IndexEdit, length: int) -> bool {
    match edit {
        IndexEdit::Identity => true,
        IndexEdit::Insert { after } => after < length,
        IndexEdit::Delete { at } => at < length,
    }
}

/// A rebased index names the very entry that it named before the edit, unless
/// that entry was deleted.
pub proof fn rebasing_follows_the_entry<T>(edit: IndexEdit, list: Seq<T>, fresh: T, index: int)
    requires
        edit_applies(edit, list.len() as int),
        0 <= index < list.len(),
        edit != (IndexEdit::Delete { at: index as usize }),
    ensures
        0 <= rebased(edit, index, edited(edit, list, fresh).len() as int) < edited(
            edit,
            list,
            fresh,
        ).len(),
        edited(edit, list, fresh)[rebased(edit, index, edited(edit, list, fresh).len() as int)]
            == list[index],
        origin(edit, rebased(edit, index, edited(edit, list, fresh).len() as int)) == Some(index),
{
}

/// An identity map moves nothing.
pub proof fn identity_keeps_every_index(index: int, length: int)
    requires
        0 <= index < length,
    ensures
        rebased(IndexEdit::Identity, index, length) == index,
        origin(IndexEdit::Identity, index) == Some(index),
{
}

} // verus!
