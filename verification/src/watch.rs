//! File-watcher events as the reload logic reads them.

use vstd::prelude::*;
use vstd::string::*;
use crate::report::{lemma_texts_empty, lemma_texts_push, texts};

verus! {

/// One debounced notification from the file watcher.
#[derive(Debug, PartialEq, Eq)]
pub enum ChangeEvent {
    /// A file or directory at this path was created.
    Created(String),
    /// The file at this path was written to.
    Modified(String),
    /// Anything else the watcher reports.
    Other,
}

impl ChangeEvent {
    /// Whether this event asks for the shader to be rebuilt. Every creation
    /// and every write does, whatever its path: a rebuild of an unchanged
    /// shader is cheap and gives the same result.
    pub open spec fn is_change(self) -> bool {
        self is Created || self is Modified
    }

    /// The path of a creation or a write.
    pub open spec fn changed_path(self) -> Option<Seq<char>> {
        match self {
            ChangeEvent::Created(path) => Some(path@),
            ChangeEvent::Modified(path) => Some(path@),
            ChangeEvent::Other => None,
        }
    }

    /// Whether this event asks for the shader to be rebuilt.
    pub fn requests_reload(&self) -> (reload: bool)
        ensures
            reload == self.is_change(),
    {
        match self {
            ChangeEvent::Created(_) => true,
            ChangeEvent::Modified(_) => true,
            ChangeEvent::Other => false,
        }
    }

    /// The log line for this event: one for a creation or a write, none for
    /// anything else.
    pub fn notice(&self) -> (line: Option<String>)
        ensures
            match self.changed_path() {
                Some(path) => line matches Some(text) && text@ == notice_text(path),
                None => line is None,
            },
    {
        match self {
            ChangeEvent::Created(path) => Some(change_notice(path.as_str())),
            ChangeEvent::Modified(path) => Some(change_notice(path.as_str())),
            ChangeEvent::Other => None,
        }
    }
}

/// The log line that reports a change at `path`.
pub open spec fn notice_text(path: Seq<char>) -> Seq<char> {
    "info: "@ + path + ": file change detected."@
}

/// Builds the log line that reports a change at `path`.
pub fn change_notice(path: &str) -> (line: String)
    ensures
        line@ == notice_text(path@),
{
    let mut line = String::from_str("info: ");
    line.append(path);
    line.append(": file change detected.");
    line
}

/// Whether any of the events asks for a rebuild.
pub open spec fn any_change(events: Seq<ChangeEvent>) -> bool {
    exists|i: int| 0 <= i < events.len() && (#[trigger] events[i]).is_change()
}

/// The log lines for a batch of events: one per creation or write, in the
/// order of the events.
pub open spec fn change_notices(events: Seq<ChangeEvent>) -> Seq<Seq<char>>
    decreases events.len(),
{
    if events.len() == 0 {
        Seq::empty()
    } else {
        let earlier = change_notices(events.drop_last());
        match events.last().changed_path() {
            Some(path) => earlier.push(notice_text(path)),
            None => earlier,
        }
    }
}

/// What one drain of the watcher's queue amounts to.
#[derive(Debug, PartialEq, Eq)]
pub struct ChangeReport {
    /// Whether at least one event asks for a rebuild.
    pub changed: bool,
    /// One log line per creation or write, in order.
    pub notices: Vec<String>,
}

/// Reads a batch of watcher events: however many of them ask for a rebuild,
/// the answer is a single flag, and each of them gets its log line.
pub fn scan(events: &Vec<ChangeEvent>) -> (report: ChangeReport)
    ensures
        report.changed == any_change(events@),
        texts(report.notices@) == change_notices(events@),
{
    let mut changed = false;
    let mut notices: Vec<String> = Vec::new();
    proof {
        lemma_texts_empty();
        assert(events@.take(0) =~= Seq::<ChangeEvent>::empty());
    }
    let mut i: usize = 0;
    while i < events.len()
        invariant
            i <= events.len(),
            changed == any_change(events@.take(i as int)),
            texts(notices@) == change_notices(events@.take(i as int)),
        decreases events.len() - i,
    {
        let ghost seen = events@.take(i as int);
        let ghost next = events@.take(i as int + 1);
        proof {
            assert(next.drop_last() =~= seen);
            assert(next.last() == events@[i as int]);
            assert(any_change(next) == (any_change(seen) || events@[i as int].is_change())) by {
                if any_change(seen) {
                    let k = choose|k: int| 0 <= k < seen.len() && (#[trigger] seen[k]).is_change();
                    assert(next[k].is_change());
                }
                if events@[i as int].is_change() {
                    assert(next[i as int].is_change());
                }
                if any_change(next) {
                    let k = choose|k: int| 0 <= k < next.len() && (#[trigger] next[k]).is_change();
                    if k < i {
                        assert(seen[k].is_change());
                    }
                }
            }
        }
        match events[i].notice() {
            Some(line) => {
                proof {
                    lemma_texts_push(notices@, line);
                }
                notices.push(line);
                changed = true;
            },
            None => {},
        }
        i = i + 1;
    }
    proof {
        assert(events@.take(i as int) =~= events@);
    }
    ChangeReport { changed, notices }
}

} // verus!
