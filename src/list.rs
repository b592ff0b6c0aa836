//! The candidate list: paths in discovery order, the state of each, and the
//! cursor that marks the highlighted one.
use vstd::prelude::*;

verus! {

/// Where one candidate stands in its removal.
pub enum Status {
    Pending,
    Deleting,
    Deleted,
    /// The removal failed; the text says why.
    Failed(String),
}

/// The mark shown before an entry's path.
pub open spec fn marker_of(status: Status) -> Seq<char> {
    match status {
        Status::Pending => "\u{2610}"@,
        Status::Deleting => "....loading"@,
        Status::Deleted => "\u{2713}"@,
        Status::Failed(_) => "\u{2717}"@,
    }
}

impl Status {
    /// The mark shown before an entry's path.
    pub fn marker(&self) -> (r: &'static str)
        ensures
            r@ == marker_of(*self),
    {
        match self {
            Status::Pending => "\u{2610}",
            Status::Deleting => "....loading",
            Status::Deleted => "\u{2713}",
            Status::Failed(_) => "\u{2717}",
        }
    }
}

/// Why removing a directory did not succeed.
pub enum RemoveError {
    /// The path was already gone.
    Missing,
    /// Any other failure, with its description.
    Io(String),
}

/// The list as values: a path and a status per entry, and the cursor.
pub struct ListModel {
    pub paths: Seq<String>,
    pub statuses: Seq<Status>,
    pub cursor: Option<int>,
}

impl ListModel {
    pub open spec fn len(self) -> int {
        self.paths.len() as int
    }

    /// Each path has its status; the cursor, when set, names an entry; an empty
    /// list has no cursor.
    pub open spec fn wf(self) -> bool {
        &&& self.statuses.len() == self.paths.len()
        &&& self.len() <= usize::MAX
        &&& self.cursor matches Some(i) ==> 0 <= i < self.len()
        &&& self.len() == 0 ==> self.cursor is None
    }
}

/// The entry after the cursor, wrapping past the end; the first when unset.
pub open spec fn next_index(cursor: Option<int>, len: int) -> int {
    match cursor {
        Some(i) => if i + 1 >= len {
            0
        } else {
            i + 1
        },
        None => 0,
    }
}

/// The entry before the cursor, wrapping past the start; the first when unset.
pub open spec fn previous_index(cursor: Option<int>, len: int) -> int {
    match cursor {
        Some(i) => if i == 0 {
            len - 1
        } else {
            i - 1
        },
        None => 0,
    }
}

pub open spec fn move_next(m: ListModel) -> ListModel {
    if m.len() == 0 {
        m
    } else {
        ListModel { cursor: Some(next_index(m.cursor, m.len())), ..m }
    }
}

pub open spec fn move_previous(m: ListModel) -> ListModel {
    if m.len() == 0 {
        m
    } else {
        ListModel { cursor: Some(previous_index(m.cursor, m.len())), ..m }
    }
}

/// The entry under the cursor, when it is still pending.
pub open spec fn pending_target(m: ListModel) -> Option<int> {
    match m.cursor {
        Some(i) => if m.statuses[i] is Pending {
            Some(i)
        } else {
            None
        },
        None => None,
    }
}

/// Marks the pending entry under the cursor as being deleted and moves the
/// cursor on; anything else leaves the list as it is.
pub open spec fn start_delete(m: ListModel) -> ListModel {
    match pending_target(m) {
        Some(i) => ListModel {
            statuses: m.statuses.update(i, Status::Deleting),
            cursor: Some(next_index(Some(i), m.len())),
            ..m
        },
        None => m,
    }
}

/// The status that a finished removal leaves: a path already gone counts as
/// removed.
pub open spec fn outcome_status(result: Result<(), RemoveError>) -> Status {
    match result {
        Ok(()) => Status::Deleted,
        Err(RemoveError::Missing) => Status::Deleted,
        Err(RemoveError::Io(cause)) => Status::Failed(cause),
    }
}

/// Records the outcome of removing entry `index`, if that entry is being deleted.
pub open spec fn end_delete(m: ListModel, index: int, result: Result<(), RemoveError>) -> ListModel {
    if 0 <= index < m.len() && m.statuses[index] is Deleting {
        ListModel { statuses: m.statuses.update(index, outcome_status(result)), ..m }
    } else {
        m
    }
}

pub struct CandidateList {
    paths: Vec<String>,
    statuses: Vec<Status>,
    cursor: Option<usize>,
}

impl View for CandidateList {
    type V = ListModel;

    closed spec fn view(&self) -> ListModel {
        ListModel {
            paths: self.paths@,
            statuses: self.statuses@,
            cursor: match self.cursor {
                Some(i) => Some(i as int),
                None => None,
            },
        }
    }
}

impl CandidateList {
    pub open spec fn wf(&self) -> bool {
        self@.wf()
    }

    /// A list of the given paths, all pending, with no cursor.
    pub fn new(paths: Vec<String>) -> (r: CandidateList)
        ensures
            r.wf(),
            r@.paths == paths@,
            r@.statuses == Seq::new(paths@.len(), |_i: int| Status::Pending),
            r@.cursor is None,
    {
        let mut statuses: Vec<Status> = Vec::new();
        let mut i: usize = 0;
        while i < paths.len()
            invariant
                0 <= i <= paths.len(),
                statuses@ == Seq::new(i as nat, |_i: int| Status::Pending),
            decreases paths.len() - i,
        {
            statuses.push(Status::Pending);
            i += 1;
            assert(statuses@ =~= Seq::new(i as nat, |_i: int| Status::Pending));
        }
        CandidateList { paths, statuses, cursor: None }
    }

    pub fn len(&self) -> (r: usize)
        ensures
            r == self@.len(),
    {
        self.paths.len()
    }

    pub fn path(&self, index: usize) -> (r: &String)
        requires
            index < self@.len(),
        ensures
            *r == self@.paths[index as int],
    {
        &self.paths[index]
    }

    pub fn status(&self, index: usize) -> (r: &Status)
        requires
            self.wf(),
            index < self@.len(),
        ensures
            *r == self@.statuses[index as int],
    {
        &self.statuses[index]
    }

    pub fn cursor(&self) -> (r: Option<usize>)
        ensures
            r matches Some(i) ==> self@.cursor == Some(i as int),
            r is None ==> self@.cursor is None,
    {
        self.cursor
    }

    /// Moves the cursor to the next entry, wrapping to the first.
    pub fn next(&mut self)
        requires
            old(self).wf(),
        ensures
            final(self).wf(),
            final(self)@ == move_next(old(self)@),
    {
        let len = self.paths.len();
        if len == 0 {
            return;
        }
        let i: usize = match self.cursor {
            Some(i) => if i >= len - 1 {
                0
            } else {
                i + 1
            },
            None => 0,
        };
        self.cursor = Some(i);
    }

    /// Moves the cursor to the previous entry, wrapping to the last.
    pub fn previous(&mut self)
        requires
            old(self).wf(),
        ensures
            final(self).wf(),
            final(self)@ == move_previous(old(self)@),
    {
        let len = self.paths.len();
        if len == 0 {
            return;
        }
        let i: usize = match self.cursor {
            Some(i) => if i == 0 {
                len - 1
            } else {
                i - 1
            },
            None => 0,
        };
        self.cursor = Some(i);
    }

    /// Starts deleting the entry under the cursor, if it is pending: marks it,
    /// moves the cursor on, and returns the entry whose path is to be removed.
    pub fn begin_delete(&mut self) -> (r: Option<usize>)
        requires
            old(self).wf(),
        ensures
            final(self).wf(),
            final(self)@ == start_delete(old(self)@),
            r matches Some(i) ==> pending_target(old(self)@) == Some(i as int),
            r is None ==> pending_target(old(self)@) is None,
    {
        let i = match self.cursor {
            Some(i) => i,
            None => return None,
        };
        let pending = match &self.statuses[i] {
            Status::Pending => true,
            _ => false,
        };
        if !pending {
            return None;
        }
        self.statuses.set(i, Status::Deleting);
        let len = self.paths.len();
        let next: usize = if i >= len - 1 {
            0
        } else {
            i + 1
        };
        self.cursor = Some(next);
        Some(i)
    }

    /// Records how removing entry `index` ended; entries not being deleted are
    /// left as they are.
    pub fn finish_delete(&mut self, index: usize, result: Result<(), RemoveError>)
        requires
            old(self).wf(),
        ensures
            final(self).wf(),
            final(self)@ == end_delete(old(self)@, index as int, result),
    {
        if index >= self.statuses.len() {
            return;
        }
        let deleting = match &self.statuses[index] {
            Status::Deleting => true,
            _ => false,
        };
        if !deleting {
            return;
        }
        let status = match result {
            Ok(()) => Status::Deleted,
            Err(RemoveError::Missing) => Status::Deleted,
            Err(RemoveError::Io(cause)) => Status::Failed(cause),
        };
        self.statuses.set(index, status);
    }
}

} // verus!
