//! Unpacking the downloaded archive into the staging directory.
//!
//! An archive of the bundle holds the folders `POE1 POB`, `POE2 POB` and
//! `Data`, either at its top or inside one more folder that wraps them. The
//! wrapper is found before anything is written, and left out of every path.
//!
//! The archive itself is read by the caller, who hands over the names of
//! its entries and, entry by entry, what the archive reader says of it.

use vstd::prelude::*;
use vstd::string::{StrSliceExecFns, StringExecFns};

use crate::pob::error::PobError;
use crate::pob::progress::{
    progress_report, started_status, throttle_after, InstallStatus, ProgressThrottle,
};
use crate::text::{
    chars_of, ends_with, find_chars, first_index_of, join_path, joined, lemma_first_index_of,
    matches_at, occurs_at, starts_with, trim_end, trimmed_len,
};

verus! {

/// Where the first of the required folders that occurs in `name` stands in
/// it: `POE1 POB/` if that occurs, else `POE2 POB/`, else `Data/`.
pub open spec fn required_position(name: Seq<char>) -> Option<int> {
    if first_index_of(name, "POE1 POB/"@) is Some {
        first_index_of(name, "POE1 POB/"@)
    } else if first_index_of(name, "POE2 POB/"@) is Some {
        first_index_of(name, "POE2 POB/"@)
    } else {
        first_index_of(name, "Data/"@)
    }
}

/// Whether `name` holds one of the required folders.
pub open spec fn names_required_folder(name: Seq<char>) -> bool {
    required_position(name) is Some
}

/// The folder that wraps the bundle, going by an entry `name` that holds a
/// required folder: none where the folder stands at the start of the name,
/// else what stands before it, without the `/` at its end.
pub open spec fn wrapper_of(name: Seq<char>) -> Option<Seq<char>>
    recommends
        names_required_folder(name),
{
    let at = required_position(name)->0;
    if at == 0 {
        None
    } else {
        Some(trim_end(name.subrange(0, at), '/'))
    }
}

/// What an archive without any of the required folders is refused with.
pub open spec fn missing_folders_message() -> Seq<char> {
    "ZIP does not contain required folders (POE1 POB, POE2 POB, Data)"@
}

/// Where the first required folder that occurs in `name` stands.
fn find_required(name: &Vec<char>, poe1: &Vec<char>, poe2: &Vec<char>, data: &Vec<char>) -> (r:
    Option<usize>)
    requires
        poe1@ == "POE1 POB/"@,
        poe2@ == "POE2 POB/"@,
        data@ == "Data/"@,
    ensures
        match r {
            Some(at) => required_position(name@) == Some(at as int) && at <= name@.len(),
            None => required_position(name@) is None,
        },
{
    match find_chars(name, poe1) {
        Some(at) => Some(at),
        None => match find_chars(name, poe2) {
            Some(at) => Some(at),
            None => find_chars(name, data),
        },
    }
}

/// Finds out from the names of an archive's entries whether the bundle is
/// wrapped in one more folder.
///
/// The first name that holds a required folder decides: `Ok(None)` where
/// the folder stands at its start, else `Ok` of the wrapper, which is to be
/// left out of every path. An archive in which no name holds a required
/// folder is refused.
pub fn detect_nested_structure(names: &Vec<String>) -> (r: Result<Option<String>, PobError>)
    ensures
        match r {
            Ok(prefix) => exists|k: int|
                {
                    &&& 0 <= k < names@.len()
                    &&& #[trigger] names_required_folder(names@[k]@)
                    &&& forall|j: int| 0 <= j < k ==> !names_required_folder(#[trigger] names@[j]@)
                    &&& match prefix {
                        Some(p) => wrapper_of(names@[k]@) == Some(p@),
                        None => wrapper_of(names@[k]@) is None,
                    }
                },
            Err(e) => {
                &&& e matches PobError::ExtractFailed(text) && text@ == missing_folders_message()
                &&& forall|k: int|
                    0 <= k < names@.len() ==> !names_required_folder(#[trigger] names@[k]@)
            },
        },
{
    let poe1 = chars_of("POE1 POB/");
    let poe2 = chars_of("POE2 POB/");
    let data = chars_of("Data/");
    let mut k: usize = 0;
    while k < names.len()
        invariant
            k <= names@.len(),
            poe1@ == "POE1 POB/"@,
            poe2@ == "POE2 POB/"@,
            data@ == "Data/"@,
            forall|j: int| 0 <= j < k ==> !names_required_folder(#[trigger] names@[j]@),
        decreases names@.len() - k,
    {
        let name = names[k].as_str();
        let chars = chars_of(name);
        match find_required(&chars, &poe1, &poe2, &data) {
            Some(at) => {
                assert(names_required_folder(names@[k as int]@));
                if at == 0 {
                    return Ok(None);
                }
                let end = trimmed_len(&chars, at, '/');
                let prefix = String::from_str(name.substring_char(0, end));
                return Ok(Some(prefix));
            },
            None => {},
        }
        k = k + 1;
    }
    Err(
        PobError::ExtractFailed(
            String::from_str("ZIP does not contain required folders (POE1 POB, POE2 POB, Data)"),
        ),
    )
}

/// `path` without the wrapper folder at its start. A path that does not
/// lie in the wrapper is left as it is.
pub open spec fn strip_wrapper(path: Seq<char>, wrapper: Option<Seq<char>>) -> Seq<char> {
    match wrapper {
        None => path,
        Some(w) => if path == w {
            Seq::empty()
        } else if starts_with(path, w + seq!['/']) {
            path.subrange(w.len() as int + 1, path.len() as int)
        } else {
            path
        },
    }
}

/// Where an entry with the safe relative path `enclosed` goes: below
/// `dest`, the wrapper left out.
pub open spec fn entry_target(dest: Seq<char>, wrapper: Option<Seq<char>>, enclosed: Seq<char>) -> Seq<
    char,
> {
    joined(dest, strip_wrapper(enclosed, wrapper))
}

/// A path in the wrapper loses the wrapper and the `/` after it, whatever
/// follows; without a wrapper nothing is cut off.
pub proof fn lemma_strip_wrapper(wrapper: Seq<char>, rest: Seq<char>)
    requires
        rest.len() > 0,
    ensures
        strip_wrapper(wrapper + seq!['/'] + rest, Some(wrapper)) == rest,
        strip_wrapper(wrapper + seq!['/'] + rest, None) == wrapper + seq!['/'] + rest,
{
    let path = wrapper + seq!['/'] + rest;
    assert(path.subrange(0, (wrapper + seq!['/']).len() as int) =~= wrapper + seq!['/']);
}

/// An entry below `POE1 POB/` inside a wrapper folder is unpacked without
/// the wrapper. Let the wrapper be one folder whose name does not end in
/// `POE1 POB`. Then an entry `wrapper/POE1 POB/...` names the wrapper, and
/// it goes to `POE1 POB/...` below the staging directory.
pub proof fn lemma_wrapped_entry_loses_its_wrapper(
    dest: Seq<char>,
    wrapper: Seq<char>,
    rest: Seq<char>,
)
    requires
        wrapper.len() > 0,
        !wrapper.contains('/'),
        !ends_with(wrapper, "POE1 POB"@),
    ensures
        ({
            let name = wrapper + "/POE1 POB/"@ + rest;
            &&& names_required_folder(name)
            &&& wrapper_of(name) == Some(wrapper)
            &&& entry_target(dest, wrapper_of(name), name) == joined(dest, "POE1 POB/"@ + rest)
        }),
{
    reveal_strlit("/POE1 POB/");
    reveal_strlit("POE1 POB/");
    reveal_strlit("POE1 POB");
    let needle = "POE1 POB/"@;
    let name = wrapper + "/POE1 POB/"@ + rest;
    let n = wrapper.len() as int;
    assert(name.subrange(n + 1, n + 1 + needle.len()) =~= needle);
    assert(occurs_at(name, needle, n + 1));
    assert forall|j: int| j < n + 1 implies !occurs_at(name, needle, j) by {
        if occurs_at(name, needle, j) {
            // The `/` of the folder's name stands at `j + 8`: inside the wrapper, right
            // behind it, or inside `POE1 POB`. Only behind the wrapper is there a `/`, and
            // then the wrapper ends in `POE1 POB`.
            let found = name.subrange(j, j + needle.len());
            assert(found[8] == '/');
            if j + 8 == n {
                assert forall|k: int| 0 <= k < 8 implies wrapper[n - 8 + k] == "POE1 POB"@[k] by {
                    assert(found[k] == name[j + k]);
                }
                assert(wrapper.subrange(n - 8, n) =~= "POE1 POB"@);
            }
        }
    }
    lemma_first_index_of(name, needle);
    let before = name.subrange(0, n + 1);
    assert(before.drop_last() =~= wrapper);
    assert(wrapper.last() != '/');
    assert(trim_end(before, '/') == trim_end(wrapper, '/'));
    assert(name.subrange(0, (wrapper + seq!['/']).len() as int) =~= wrapper + seq!['/']);
}

/// An entry below `POE1 POB/` at the top of the archive shows that there
/// is no wrapper, and goes below the staging directory under its own name.
pub proof fn lemma_flat_entry_keeps_its_path(dest: Seq<char>, rest: Seq<char>)
    ensures
        ({
            let name = "POE1 POB/"@ + rest;
            &&& names_required_folder(name)
            &&& wrapper_of(name) is None
            &&& entry_target(dest, wrapper_of(name), name) == joined(dest, name)
        }),
{
    let needle = "POE1 POB/"@;
    let name = needle + rest;
    assert(name.subrange(0, needle.len() as int) =~= needle);
}

/// `path` without the wrapper folder at its start.
pub fn strip_prefix(path: &str, wrapper: &Option<String>) -> (r: String)
    ensures
        r@ == strip_wrapper(
            path@,
            match *wrapper {
                Some(w) => Some(w@),
                None => None,
            },
        ),
{
    match wrapper {
        None => String::from_str(path),
        Some(w) => {
            let p = chars_of(path);
            let wc = chars_of(w.as_str());
            if !matches_at(&p, &wc, 0) {
                assert(p@ != wc@) by {
                    if p@ == wc@ {
                        assert(p@.subrange(0, wc@.len() as int) =~= wc@);
                    }
                }
                assert(!starts_with(p@, wc@ + seq!['/'])) by {
                    if starts_with(p@, wc@ + seq!['/']) {
                        let both = wc@ + seq!['/'];
                        assert(p@.subrange(0, wc@.len() as int) =~= p@.subrange(
                            0,
                            both.len() as int,
                        ).subrange(0, wc@.len() as int));
                        assert(both.subrange(0, wc@.len() as int) =~= wc@);
                    }
                }
                String::from_str(path)
            } else if p.len() == wc.len() {
                assert(p@ =~= p@.subrange(0, wc@.len() as int));
                String::new()
            } else if p[wc.len()] == '/' {
                assert(p@.subrange(0, (wc@ + seq!['/']).len() as int) =~= wc@ + seq!['/']) by {
                    assert forall|i: int| 0 <= i < wc@.len() + 1 implies p@[i] == (wc@ + seq![
                        '/',
                    ])[i] by {}
                }
                String::from_str(path.substring_char(wc.len() + 1, p.len()))
            } else {
                assert(!starts_with(p@, wc@ + seq!['/'])) by {
                    if starts_with(p@, wc@ + seq!['/']) {
                        let both = wc@ + seq!['/'];
                        assert(p@.subrange(0, both.len() as int)[wc@.len() as int] == both[wc@.len() as int]);
                    }
                }
                String::from_str(path)
            }
        },
    }
}

/// What the archive reader says of one entry.
#[derive(Debug)]
pub struct ArchiveEntry {
    /// The name as the archive holds it.
    pub name: String,
    /// The name as a relative path that stays inside the directory it is
    /// unpacked to, its parts joined by `/`; `None` where the name would
    /// lead out of it.
    pub enclosed_name: Option<String>,
    /// Whether the entry is a directory.
    pub is_dir: bool,
}

/// What is to be done with one entry.
#[derive(Debug)]
pub enum EntryAction {
    /// Nothing: the entry's name leads out of the staging directory.
    Skip,
    /// Create this directory and those above it that are missing.
    CreateDir { path: String },
    /// Create the directories above this path that are missing, write the
    /// entry's bytes to it, and give it the entry's modification time where
    /// that can be converted.
    WriteFile { path: String },
}

/// What the extraction does next.
#[derive(Debug)]
pub enum ExtractNext {
    /// Read the entry with this index and ask [`Extraction::place`].
    Entry { index: u32 },
    /// Stop: the cancellation signal is up. Report it, then delete the
    /// staging directory `remove`; a failure to delete is only logged.
    Cancelled { report: InstallStatus, remove: String },
    /// Every entry is dealt with: report it.
    Finished { report: InstallStatus },
}

/// An extraction under way.
#[derive(Debug)]
pub struct Extraction {
    /// The staging directory.
    pub dest: String,
    /// The folder that wraps the bundle in the archive, if one does.
    pub skip_prefix: Option<String>,
    /// How many entries are unpacked.
    pub file_count: u32,
    /// How many entries have been dealt with.
    pub done: u32,
    pub throttle: ProgressThrottle,
}

/// The number of entries of an archive that holds `entries` of them, as it
/// is counted in 32 bits.
pub open spec fn counted_entries(entries: usize) -> u32 {
    (entries as int % 0x1_0000_0000) as u32
}

impl Extraction {
    /// No more entries are dealt with than there are.
    pub open spec fn wf(self) -> bool {
        self.done <= self.file_count
    }

    /// The wrapper as a sequence of characters.
    pub open spec fn wrapper(self) -> Option<Seq<char>> {
        match self.skip_prefix {
            Some(w) => Some(w@),
            None => None,
        }
    }

    /// Begins, at time `now`, to unpack an archive whose entries have the
    /// given `names`, in the archive's order, into the emptied staging
    /// directory `dest`.
    ///
    /// An archive without any of the required folders is refused here,
    /// before anything is reported or written. Otherwise the status is to
    /// be reported, and the entries follow one by one.
    pub fn begin(dest: &str, names: &Vec<String>, now: u64) -> (r: Result<
        (Extraction, InstallStatus),
        PobError,
    >)
        ensures
            match r {
                Ok((run, report)) => {
                    &&& run.wf()
                    &&& run.dest@ == dest@
                    &&& run.file_count == counted_entries(names.len())
                    &&& run.done == 0
                    &&& run.throttle.last_emit == Some(now)
                    &&& report == started_status(run.file_count as u64)
                    &&& exists|k: int|
                        {
                            &&& 0 <= k < names@.len()
                            &&& #[trigger] names_required_folder(names@[k]@)
                            &&& forall|j: int|
                                0 <= j < k ==> !names_required_folder(#[trigger] names@[j]@)
                            &&& run.wrapper() == wrapper_of(names@[k]@)
                        }
                },
                Err(e) => {
                    &&& e matches PobError::ExtractFailed(text) && text@
                        == missing_folders_message()
                    &&& forall|k: int|
                        0 <= k < names@.len() ==> !names_required_folder(#[trigger] names@[k]@)
                },
            },
    {
        match detect_nested_structure(names) {
            Err(e) => Err(e),
            Ok(skip_prefix) => {
                let file_count = (names.len() as u64 % 0x1_0000_0000) as u32;
                Ok(
                    (
                        Extraction {
                            dest: String::from_str(dest),
                            skip_prefix,
                            file_count,
                            done: 0,
                            throttle: ProgressThrottle::starting_at(now),
                        },
                        InstallStatus::started(file_count as u64),
                    ),
                )
            },
        }
    }

    /// Says what comes next. `cancelled` tells whether the cancellation
    /// signal is up: it is looked at before each entry.
    pub fn next(&self, cancelled: bool) -> (next: ExtractNext)
        requires
            self.wf(),
        ensures
            match next {
                ExtractNext::Entry { index } => !cancelled && self.done < self.file_count && index
                    == self.done,
                ExtractNext::Cancelled { report, remove } => cancelled && self.done
                    < self.file_count && report is Cancelled && remove@ == self.dest@,
                ExtractNext::Finished { report } => self.done == self.file_count && report
                    is Completed,
            },
    {
        if self.done >= self.file_count {
            ExtractNext::Finished { report: InstallStatus::Completed }
        } else if cancelled {
            ExtractNext::Cancelled { report: InstallStatus::Cancelled, remove: self.dest.clone() }
        } else {
            ExtractNext::Entry { index: self.done }
        }
    }

    /// Says what is to be done with `entry`. An entry whose name leads out
    /// of the staging directory is skipped. Any other goes below the
    /// staging directory, the wrapper left out of its path.
    pub fn place(&self, entry: &ArchiveEntry) -> (action: EntryAction)
        ensures
            match entry.enclosed_name {
                None => action is Skip,
                Some(enclosed) => if entry.is_dir {
                    action matches EntryAction::CreateDir { path } && path@ == entry_target(
                        self.dest@,
                        self.wrapper(),
                        enclosed@,
                    )
                } else {
                    action matches EntryAction::WriteFile { path } && path@ == entry_target(
                        self.dest@,
                        self.wrapper(),
                        enclosed@,
                    )
                },
            },
    {
        match &entry.enclosed_name {
            None => EntryAction::Skip,
            Some(enclosed) => {
                let rel = strip_prefix(enclosed.as_str(), &self.skip_prefix);
                let path = join_path(self.dest.as_str(), rel.as_str());
                if entry.is_dir {
                    EntryAction::CreateDir { path }
                } else {
                    EntryAction::WriteFile { path }
                }
            },
        }
    }

    /// Takes note, at time `now`, that the entry in turn is dealt with, and
    /// returns the report that is due. After a skipped entry none is.
    pub fn entry_done(&mut self, skipped: bool, now: u64) -> (report: Option<InstallStatus>)
        requires
            old(self).wf(),
            old(self).done < old(self).file_count,
        ensures
            final(self).wf(),
            final(self).dest == old(self).dest,
            final(self).skip_prefix == old(self).skip_prefix,
            final(self).file_count == old(self).file_count,
            final(self).done == old(self).done + 1,
            skipped ==> report is None && final(self).throttle == old(self).throttle,
            !skipped ==> report == progress_report(
                old(self).throttle.last_emit,
                final(self).done as u64,
                old(self).file_count as u64,
                now,
            ) && final(self).throttle.last_emit == throttle_after(
                old(self).throttle.last_emit,
                InstallStatus::InProgress {
                    done: final(self).done as u64,
                    total: old(self).file_count as u64,
                },
                now,
            ),
    {
        self.done = self.done + 1;
        if skipped {
            return None;
        }
        let status = InstallStatus::InProgress {
            done: self.done as u64,
            total: self.file_count as u64,
        };
        if self.throttle.offer(&status, now) {
            Some(status)
        } else {
            None
        }
    }
}

} // verus!
