//! A file that is replaced on each write while the replaced versions are kept
//! in a directory `old` beside it, the oldest ones being deleted.
//!
//! The file system is touched by the caller; this module decides the paths:
//! where the current file and the old directory are, which old files expire,
//! which name a replaced file gets, and which files can be read back.
use vstd::prelude::*;

use crate::decimal::decimal;
use crate::decimal::lemma_decimal_injective;
use crate::decimal::push_decimal;
use crate::file::count_message;
use crate::file::owned;
use crate::name_order::descending;
use crate::name_order::sort_descending;
use crate::name_order::views;
use crate::ris_error::new_err;
use crate::ris_error::unroll;
use crate::ris_error::RisErrorView;
use crate::ris_error::RisResult;
use crate::ris_error::SourceError;

verus! {

/// The path of `name` inside the directory `dir`: a `'/'` between them unless
/// `dir` is empty or already ends in one.
pub open spec fn joined(dir: Seq<char>, name: Seq<char>) -> Seq<char> {
    if dir.len() == 0 || dir.last() == '/' {
        dir + name
    } else {
        dir + seq!['/'] + name
    }
}

/// The path of `name` inside the directory `dir`.
pub fn join_path(dir: &str, name: &str) -> (res: String)
    ensures
        res@ == joined(dir@, name@),
{
    let mut out = String::new();
    out.append(dir);
    let n = dir.unicode_len();
    if n != 0 && dir.get_char(n - 1) != '/' {
        proof { reveal_strlit("/"); }
        out.append("/");
    }
    out.append(name);
    out
}

/// The name of the current file for the given extension.
pub open spec fn current_file_name(file_extension: Seq<char>) -> Seq<char> {
    "current"@ + file_extension
}

/// The path of the current file and of the directory of old files.
pub fn generate_paths(directory: &str, file_extension: &str) -> (res: (String, String))
    ensures
        res.0@ == joined(directory@, current_file_name(file_extension@)),
        res.1@ == joined(directory@, "old"@),
{
    let mut filename = owned("current");
    filename.append(file_extension);
    let current_path = join_path(directory, filename.as_str());
    let old_directory = join_path(directory, "old");
    (current_path, old_directory)
}

/// The paths of the given names inside `dir`.
pub open spec fn paths_in(dir: Seq<char>, names: Seq<Seq<char>>) -> Seq<Seq<char>> {
    names.map_values(|name: Seq<char>| joined(dir, name))
}

/// The paths of `names` inside `dir`, in the order of `names`.
pub fn join_all(dir: &str, names: &Vec<String>) -> (res: Vec<String>)
    ensures
        views(res@) == paths_in(dir@, views(names@)),
{
    let mut res: Vec<String> = Vec::new();
    let mut i: usize = 0;
    while i < names.len()
        invariant
            i <= names@.len(),
            views(res@) == paths_in(dir@, views(names@)).subrange(0, i as int),
        decreases names@.len() - i,
    {
        let path = join_path(dir, names[i].as_str());
        let ghost prev = views(res@);
        res.push(path);
        proof {
            assert(views(res@) =~= prev.push(path@));
            assert(path@ == paths_in(dir@, views(names@))[i as int]);
        }
        i = i + 1;
        assert(views(res@) =~= paths_in(dir@, views(names@)).subrange(0, i as int));
    }
    assert(paths_in(dir@, views(names@)).subrange(0, i as int) =~= paths_in(dir@, views(names@)));
    res
}

/// The entries of the old directory that are deleted before a new version is
/// kept: listed from the last name to the first, all but the first
/// `old_file_count - 1` of them.
pub open spec fn expired_names(names: Seq<Seq<char>>, old_file_count: nat) -> Seq<Seq<char>> {
    let sorted = names.sort_by(descending());
    let kept = old_file_count - 1;
    if kept >= sorted.len() {
        Seq::empty()
    } else {
        sorted.subrange(kept, sorted.len() as int)
    }
}

/// The paths in `old_directory` of the entries named `entry_names` that have
/// expired when `old_file_count` versions are kept.
pub fn expired_files(old_directory: &str, entry_names: Vec<String>, old_file_count: usize) -> (res:
    Vec<String>)
    requires
        old_file_count >= 1,
    ensures
        views(res@) == paths_in(old_directory@, expired_names(views(entry_names@), old_file_count as nat)),
{
    let ghost names = views(entry_names@);
    let sorted = sort_descending(entry_names);
    let kept = old_file_count - 1;
    let mut expired: Vec<String> = Vec::new();
    let mut i: usize = kept;
    proof {
        crate::name_order::lemma_descending_total();
        names.lemma_sort_by_ensures(descending());
    }
    let ghost target = expired_names(names, old_file_count as nat);
    while i < sorted.len()
        invariant
            views(sorted@) == names.sort_by(descending()),
            target == expired_names(names, old_file_count as nat),
            kept == old_file_count - 1,
            kept <= i,
            kept < sorted@.len() ==> i <= sorted@.len(),
            kept < sorted@.len() ==> views(expired@) == views(sorted@).subrange(kept as int, i as int),
            kept >= sorted@.len() ==> expired@.len() == 0,
        decreases sorted@.len() - i,
    {
        expired.push(sorted[i].clone());
        i = i + 1;
        assert(views(expired@) =~= views(sorted@).subrange(kept as int, i as int));
    }
    assert(views(expired@) =~= target);
    join_all(old_directory, &expired)
}

/// The name that the `counter`-th attempt gives a replaced file: the stem and
/// the extension, with the counter in brackets between them from the first
/// retry on.
pub open spec fn backup_name(stem: Seq<char>, file_extension: Seq<char>, counter: nat) -> Seq<char> {
    if counter == 0 {
        stem + file_extension
    } else {
        stem + seq!['('] + decimal(counter) + seq![')'] + file_extension
    }
}

/// Different attempts give different names.
pub proof fn lemma_backup_name_injective(stem: Seq<char>, ext: Seq<char>, a: nat, b: nat)
    requires
        backup_name(stem, ext, a) == backup_name(stem, ext, b),
    ensures
        a == b,
{
    crate::decimal::lemma_decimal_roundtrip(a);
    crate::decimal::lemma_decimal_roundtrip(b);
    let x = backup_name(stem, ext, a);
    let y = backup_name(stem, ext, b);
    assert(x.len() == y.len());
    if a != 0 && b != 0 {
        let lo = stem.len() + 1;
        let da = decimal(a).len();
        assert(x.len() == stem.len() + 2 + da + ext.len());
        assert(y.len() == stem.len() + 2 + decimal(b).len() + ext.len());
        assert(decimal(a).len() == decimal(b).len());
        assert(x.subrange(lo as int, (lo + da) as int) =~= decimal(a));
        assert(y.subrange(lo as int, (lo + da) as int) =~= decimal(b));
        lemma_decimal_injective(a, b);
    } else if a != 0 {
        assert(x.len() == stem.len() + 2 + decimal(a).len() + ext.len());
    } else if b != 0 {
        assert(y.len() == stem.len() + 2 + decimal(b).len() + ext.len());
    }
}

/// The first attempt whose name is not among `existing`.
pub open spec fn first_free_counter(stem: Seq<char>, ext: Seq<char>, existing: Seq<Seq<char>>) -> nat {
    choose|c: nat|
        !existing.contains(backup_name(stem, ext, c)) && forall|d: nat|
            d < c ==> existing.contains(#[trigger] backup_name(stem, ext, d))
}

/// The name of the `counter`-th attempt.
pub fn make_backup_name(stem: &str, file_extension: &str, counter: u64) -> (res: String)
    ensures
        res@ == backup_name(stem@, file_extension@, counter as nat),
{
    let mut out = owned(stem);
    if counter != 0 {
        proof {
            reveal_strlit("(");
            reveal_strlit(")");
        }
        out.append("(");
        push_decimal(&mut out, counter);
        out.append(")");
    }
    out.append(file_extension);
    out
}

fn contains_name(names: &Vec<String>, name: &String) -> (res: bool)
    ensures
        res == views(names@).contains(name@),
{
    let mut i: usize = 0;
    while i < names.len()
        invariant
            i <= names@.len(),
            forall|j: int| 0 <= j < i ==> views(names@)[j] != name@,
        decreases names@.len() - i,
    {
        if names[i] == *name {
            assert(views(names@)[i as int] == name@);
            return true;
        }
        i = i + 1;
    }
    false
}

/// Counting attempts from `k` on, with the names of the attempts before `k`
/// all taken and collected in `seen`, a free attempt is met whose
/// predecessors are all taken, and it is no later than the number of
/// existing names.
proof fn lemma_free_counter_from(
    stem: Seq<char>,
    ext: Seq<char>,
    existing: Seq<Seq<char>>,
    k: nat,
    seen: Set<Seq<char>>,
)
    requires
        seen.finite(),
        seen.len() == k,
        seen.subset_of(existing.to_set()),
        forall|x: Seq<char>| #[trigger] seen.contains(x) ==> exists|d: nat|
            d < k && x == backup_name(stem, ext, d),
        forall|d: nat| d < k ==> existing.contains(#[trigger] backup_name(stem, ext, d)),
    ensures
        exists|c: nat|
            c <= existing.len() && !existing.contains(backup_name(stem, ext, c)) && forall|d: nat|
                d < c ==> existing.contains(#[trigger] backup_name(stem, ext, d)),
    decreases existing.len() - k,
{
    existing.lemma_cardinality_of_set();
    vstd::set_lib::lemma_len_subset(seen, existing.to_set());
    let cur = backup_name(stem, ext, k);
    if !existing.contains(cur) {
        assert(k <= existing.len());
    } else {
        if seen.contains(cur) {
            let d = choose|d: nat| d < k && cur == backup_name(stem, ext, d);
            lemma_backup_name_injective(stem, ext, k, d);
        }
        let bigger = seen.insert(cur);
        assert(bigger.subset_of(existing.to_set()));
        vstd::set_lib::lemma_len_subset(bigger, existing.to_set());
        assert forall|x: Seq<char>| #[trigger] bigger.contains(x) implies exists|d: nat|
            d < k + 1 && x == backup_name(stem, ext, d) by {
            if x == cur {
                assert(k < k + 1);
            }
        }
        lemma_free_counter_from(stem, ext, existing, k + 1, bigger);
    }
}

/// The attempt that [`backup_path`] settles on exists: its name is not among
/// the existing names, the names of all earlier attempts are, and there are
/// at least as many existing names as earlier attempts.
pub proof fn lemma_first_free_counter(stem: Seq<char>, ext: Seq<char>, existing: Seq<Seq<char>>)
    ensures
        !existing.contains(backup_name(stem, ext, first_free_counter(stem, ext, existing))),
        forall|d: nat|
            d < first_free_counter(stem, ext, existing) ==> existing.contains(
                #[trigger] backup_name(stem, ext, d),
            ),
        first_free_counter(stem, ext, existing) <= existing.len(),
{
    lemma_free_counter_from(stem, ext, existing, 0, Set::empty());
    let w = choose|c: nat|
        c <= existing.len() && !existing.contains(backup_name(stem, ext, c)) && forall|d: nat|
            d < c ==> existing.contains(#[trigger] backup_name(stem, ext, d));
    let f = first_free_counter(stem, ext, existing);
    if f < w {
        assert(existing.contains(backup_name(stem, ext, f)));
    }
    if w < f {
        assert(existing.contains(backup_name(stem, ext, w)));
    }
}

/// The path in `old_directory` that the current file is moved to when it is
/// replaced: `stem` and `file_extension` with the first counter whose name is
/// not taken by one of `existing_names` (the entries of the old directory).
pub fn backup_path(
    old_directory: &str,
    stem: &str,
    file_extension: &str,
    existing_names: &Vec<String>,
) -> (res: String)
    ensures
        res@ == joined(
            old_directory@,
            backup_name(stem@, file_extension@, first_free_counter(stem@, file_extension@, views(existing_names@))),
        ),
{
    let ghost existing = views(existing_names@);
    let ghost free = first_free_counter(stem@, file_extension@, existing);
    proof {
        lemma_first_free_counter(stem@, file_extension@, existing);
    }
    let total = existing_names.len();
    let mut counter: u64 = 0;
    let mut name = make_backup_name(stem, file_extension, 0);
    while contains_name(existing_names, &name)
        invariant
            total == existing_names@.len(),
            existing == views(existing_names@),
            free == first_free_counter(stem@, file_extension@, existing),
            !existing.contains(backup_name(stem@, file_extension@, free)),
            forall|d: nat| d < free ==> existing.contains(#[trigger] backup_name(stem@, file_extension@, d)),
            free <= existing_names@.len(),
            counter <= free,
            name@ == backup_name(stem@, file_extension@, counter as nat),
        decreases free - counter,
    {
        assert(existing.contains(backup_name(stem@, file_extension@, counter as nat)));
        counter = counter + 1;
        name = make_backup_name(stem, file_extension, counter);
    }
    proof {
        if (counter as nat) < free {
            assert(existing.contains(backup_name(stem@, file_extension@, counter as nat)));
        }
    }
    join_path(old_directory, name.as_str())
}

/// The message of the error for a short write of the current file.
pub open spec fn short_current_write_text(expected: usize, actual: usize) -> Seq<char> {
    "failed to write to current file. expected to write "@ + decimal(expected as nat)
        + " bytes but actually wrote "@ + decimal(actual as nat)
}

/// The outcome of writing `buf_len` bytes into the current file: fine when
/// all of them were written, an error otherwise.
pub fn check_current_written(
    outcome: Result<usize, SourceError>,
    buf_len: usize,
    file: String,
    line: u32,
) -> (res: RisResult<()>)
    ensures
        match outcome {
            Ok(n) => if n == buf_len {
                res is Ok
            } else {
                res matches Err(r) && r@ == (RisErrorView {
                    source: None,
                    message: short_current_write_text(buf_len, n),
                    file: file@,
                    line,
                })
            },
            Err(e) => res matches Err(r) && r@ == (RisErrorView {
                source: Some(e@),
                message: "failed to write current file"@,
                file: file@,
                line,
            }),
        },
{
    match outcome {
        Err(e) => {
            let r: RisResult<usize> = unroll(Err(e), owned("failed to write current file"), file, line);
            match r {
                Ok(_) => Ok(()),
                Err(r) => Err(r),
            }
        },
        Ok(written_bytes) => {
            if written_bytes != buf_len {
                let message = count_message(
                    "failed to write to current file. expected to write ",
                    buf_len,
                    " bytes but actually wrote ",
                    written_bytes,
                );
                Err(new_err(message, file, line))
            } else {
                Ok(())
            }
        },
    }
}

/// A file kept in `directory` under the name `current` plus an extension,
/// whose replaced versions are kept in `directory/old`.
pub struct FallbackFileOverwrite {
    directory: String,
    current_path: String,
    old_directory: String,
    file_extension: String,
    old_file_count: usize,
}

/// The abstract value of a [`FallbackFileOverwrite`].
pub struct FallbackFileView {
    pub directory: Seq<char>,
    pub current_path: Seq<char>,
    pub old_directory: Seq<char>,
    pub file_extension: Seq<char>,
    pub old_file_count: usize,
}

impl View for FallbackFileOverwrite {
    type V = FallbackFileView;

    closed spec fn view(&self) -> FallbackFileView {
        FallbackFileView {
            directory: self.directory@,
            current_path: self.current_path@,
            old_directory: self.old_directory@,
            file_extension: self.file_extension@,
            old_file_count: self.old_file_count,
        }
    }
}

/// The paths from which a version can be read back: the current file when
/// it exists, then the entries of the old directory from the last name to
/// the first (none when the directory could not be listed).
pub open spec fn available(v: FallbackFileView, current_exists: bool, old_entries: Option<Seq<Seq<char>>>) -> Seq<Seq<char>> {
    let head = if current_exists {
        seq![v.current_path]
    } else {
        Seq::empty()
    };
    let tail = match old_entries {
        Some(names) => paths_in(v.old_directory, names.sort_by(descending())),
        None => Seq::empty(),
    };
    head + tail
}

impl FallbackFileOverwrite {
    pub fn new(directory: &str, file_extension: &str, old_file_count: usize) -> (res: Self)
        ensures
            res@.directory == directory@,
            res@.file_extension == file_extension@,
            res@.old_file_count == old_file_count,
            res@.current_path == joined(directory@, current_file_name(file_extension@)),
            res@.old_directory == joined(directory@, "old"@),
    {
        let (current_path, old_directory) = generate_paths(directory, file_extension);
        Self {
            directory: owned(directory),
            current_path,
            old_directory,
            file_extension: owned(file_extension),
            old_file_count,
        }
    }

    pub fn directory(&self) -> (res: &str)
        ensures
            res@ == self@.directory,
    {
        self.directory.as_str()
    }

    pub fn current_path(&self) -> (res: &str)
        ensures
            res@ == self@.current_path,
    {
        self.current_path.as_str()
    }

    pub fn old_directory(&self) -> (res: &str)
        ensures
            res@ == self@.old_directory,
    {
        self.old_directory.as_str()
    }

    pub fn file_extension(&self) -> (res: &str)
        ensures
            res@ == self@.file_extension,
    {
        self.file_extension.as_str()
    }

    pub fn old_file_count(&self) -> (res: usize)
        ensures
            res == self@.old_file_count,
    {
        self.old_file_count
    }

    /// The paths from which a version can be read back, given whether the
    /// current file exists and the names listed in the old directory (`None`
    /// when it could not be listed).
    pub fn available_paths(&self, current_exists: bool, old_entry_names: Option<Vec<String>>) -> (res:
        Vec<String>)
        ensures
            views(res@) == available(
                self@,
                current_exists,
                match old_entry_names {
                    Some(names) => Some(views(names@)),
                    None => None,
                },
            ),
    {
        let mut result: Vec<String> = Vec::new();
        if current_exists {
            result.push(self.current_path.clone());
        }
        let ghost head = views(result@);
        let mut tail: Vec<String> = Vec::new();
        match old_entry_names {
            Some(names) => {
                let sorted = sort_descending(names);
                tail = join_all(self.old_directory.as_str(), &sorted);
            },
            None => {},
        }
        let ghost tail_view = views(tail@);
        result.append(&mut tail);
        proof {
            assert(views(result@) =~= head + tail_view);
        }
        result
    }
}

} // verus!
