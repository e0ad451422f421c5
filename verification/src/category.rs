//! The five sources of trace files and what each does with oversize records.
//!
//! An oversize record is a payload too large for a normal log entry.  It is
//! stored apart and may sit in another trace file than the entry that refers
//! to it, so records seen in one file are carried forward to later files.
//! Here a record is a `u64` key chosen by whoever parsed the file; the
//! sequencer moves keys about and never looks inside a record.

use vstd::prelude::*;

verus! {

/// A source of trace files inside a log archive.
#[derive(Clone, Copy, Debug, PartialEq, Eq, Structural)]
pub enum Category {
    /// The `Persist` directory.
    Persist,
    /// The `Special` directory.
    Special,
    /// The `Signpost` directory.
    Signpost,
    /// The `HighVolume` directory.
    HighVolume,
    /// The single live-capture file, present only after `log collect`.
    LiveData,
}

impl Category {
    /// Position in the order of visiting, from 0.
    pub open spec fn rank(self) -> nat {
        match self {
            Category::Persist => 0,
            Category::Special => 1,
            Category::Signpost => 2,
            Category::HighVolume => 3,
            Category::LiveData => 4,
        }
    }

    /// The category visited after this one, if any.
    pub open spec fn spec_successor(self) -> Option<Category> {
        match self {
            Category::Persist => Some(Category::Special),
            Category::Special => Some(Category::Signpost),
            Category::Signpost => Some(Category::HighVolume),
            Category::HighVolume => Some(Category::LiveData),
            Category::LiveData => None,
        }
    }

    /// Whether the category is one file rather than a directory of files.
    pub open spec fn spec_is_single_file(self) -> bool {
        self == Category::LiveData
    }

    /// Whether a file of this category is resolved with the store of earlier
    /// oversize records added to its own.
    pub open spec fn spec_receives_store(self) -> bool {
        self == Category::Special || self == Category::LiveData
    }

    /// Whether the oversize records of a file of this category enter the
    /// store.
    pub open spec fn spec_keeps_oversize(self) -> bool {
        self == Category::Persist || self == Category::Special || self == Category::LiveData
    }

    /// The name of the directory, or of the file, below the trace root.
    pub open spec fn spec_entry_name(self) -> Seq<char> {
        match self {
            Category::Persist => "Persist"@,
            Category::Special => "Special"@,
            Category::Signpost => "Signpost"@,
            Category::HighVolume => "HighVolume"@,
            Category::LiveData => "logdata.LiveData.tracev3"@,
        }
    }

    /// The category every walk starts with.
    pub fn first() -> (c: Category)
        ensures
            c == Category::Persist,
            c.rank() == 0,
    {
        Category::Persist
    }

    /// The category visited after this one, if any.
    #[verifier::when_used_as_spec(spec_successor)]
    pub fn successor(self) -> (next: Option<Category>)
        ensures
            next == self.spec_successor(),
            next matches Some(n) ==> n.rank() == self.rank() + 1,
            next is None <==> self == Category::LiveData,
    {
        match self {
            Category::Persist => Some(Category::Special),
            Category::Special => Some(Category::Signpost),
            Category::Signpost => Some(Category::HighVolume),
            Category::HighVolume => Some(Category::LiveData),
            Category::LiveData => None,
        }
    }

    /// Whether the category is one file rather than a directory of files.
    #[verifier::when_used_as_spec(spec_is_single_file)]
    pub fn is_single_file(self) -> (single: bool)
        ensures
            single == self.spec_is_single_file(),
    {
        match self {
            Category::LiveData => true,
            _ => false,
        }
    }

    /// Whether a file of this category is resolved with the store of earlier
    /// oversize records added to its own.
    #[verifier::when_used_as_spec(spec_receives_store)]
    pub fn receives_store(self) -> (receives: bool)
        ensures
            receives == self.spec_receives_store(),
    {
        match self {
            Category::Special | Category::LiveData => true,
            _ => false,
        }
    }

    /// Whether the oversize records of a file of this category enter the
    /// store.
    #[verifier::when_used_as_spec(spec_keeps_oversize)]
    pub fn keeps_oversize(self) -> (keeps: bool)
        ensures
            keeps == self.spec_keeps_oversize(),
    {
        match self {
            Category::Persist | Category::Special | Category::LiveData => true,
            _ => false,
        }
    }

    /// The name of the directory, or of the file, below the trace root.
    pub fn entry_name(self) -> (name: &'static str)
        ensures
            name@ == self.spec_entry_name(),
    {
        match self {
            Category::Persist => "Persist",
            Category::Special => "Special",
            Category::Signpost => "Signpost",
            Category::HighVolume => "HighVolume",
            Category::LiveData => "logdata.LiveData.tracev3",
        }
    }
}

/// The oversize records handed to the resolver with a file of category `c`:
/// the file's `own` records, followed by the `store` where the category
/// receives it.
pub open spec fn feed(c: Category, own: Seq<u64>, store: Seq<u64>) -> Seq<u64> {
    if c.spec_receives_store() {
        own + store
    } else {
        own
    }
}

/// The store after a file of category `c` with the records `own` was resolved
/// against the store `store`.
///
/// A `Persist` file adds its records behind the store.  A `Special` file, and
/// the live capture, put what they were resolved with in the store's place:
/// their own records followed by the old store.  The other categories leave
/// the store alone.
pub open spec fn carry(c: Category, own: Seq<u64>, store: Seq<u64>) -> Seq<u64> {
    match c {
        Category::Persist => store + own,
        Category::Special | Category::LiveData => own + store,
        Category::Signpost | Category::HighVolume => store,
    }
}

/// Joins two lists of oversize records into a new one.
pub fn chain(front: &Vec<u64>, back: &Vec<u64>) -> (joined: Vec<u64>)
    ensures
        joined@ == front@ + back@,
{
    let mut joined: Vec<u64> = Vec::new();
    let mut i: usize = 0;
    while i < front.len()
        invariant
            i <= front.len(),
            joined@ == front@.subrange(0, i as int),
        decreases front.len() - i,
    {
        joined.push(front[i]);
        i += 1;
    }
    assert(front@.subrange(0, front@.len() as int) == front@);
    let mut j: usize = 0;
    while j < back.len()
        invariant
            j <= back.len(),
            joined@ == front@ + back@.subrange(0, j as int),
        decreases back.len() - j,
    {
        joined.push(back[j]);
        j += 1;
    }
    assert(back@.subrange(0, back@.len() as int) == back@);
    joined
}

/// Computes `feed` for a file of category `c`.
pub fn feed_for(c: Category, own: &Vec<u64>, store: &Vec<u64>) -> (given: Vec<u64>)
    ensures
        given@ == feed(c, own@, store@),
{
    if c.receives_store() {
        chain(own, store)
    } else {
        let nothing: Vec<u64> = Vec::new();
        let given = chain(own, &nothing);
        assert(own@ + nothing@ == own@);
        given
    }
}

/// Computes `carry` for a file of category `c`.
pub fn carry_for(c: Category, own: &Vec<u64>, store: &Vec<u64>) -> (kept: Vec<u64>)
    ensures
        kept@ == carry(c, own@, store@),
{
    match c {
        Category::Persist => chain(store, own),
        Category::Special | Category::LiveData => chain(own, store),
        Category::Signpost | Category::HighVolume => {
            let nothing: Vec<u64> = Vec::new();
            let kept = chain(store, &nothing);
            assert(store@ + nothing@ == store@);
            kept
        },
    }
}

} // verus!
