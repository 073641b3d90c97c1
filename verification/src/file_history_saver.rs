use vstd::prelude::*;
use vstd::string::StringExecFns;

use crate::chars::same_text;
use crate::config::Config;
use crate::paths::{joined, path_join};
use crate::runtime::HistoryLine;

verus! {

/// What the texts read.
pub open spec fn texts(list: Seq<String>) -> Seq<Seq<char>> {
    list.map_values(|s: String| s@)
}

/// The paths without a given one.
pub open spec fn without(paths: Seq<Seq<char>>, path: Seq<char>) -> Seq<Seq<char>> {
    paths.filter(|p: Seq<char>| p != path)
}

/// The paths with the files among the lines added, each once, in the order
/// in which they first come.
pub open spec fn with_files(paths: Seq<Seq<char>>, lines: Seq<HistoryLine>) -> Seq<Seq<char>>
    decreases lines.len(),
{
    if lines.len() == 0 {
        paths
    } else {
        let before = with_files(paths, lines.drop_last());
        let line = lines.last();
        if line.is_file && !before.contains(line.path@) {
            before.push(line.path@)
        } else {
            before
        }
    }
}

/// The text of a history file: each path on a line of its own.
pub open spec fn history_text(paths: Seq<Seq<char>>) -> Seq<char>
    decreases paths.len(),
{
    if paths.len() == 0 {
        Seq::<char>::empty()
    } else {
        history_text(paths.drop_last()) + paths.last() + "\n"@
    }
}

/// Keeps the file history up to date: the files opened or saved in this
/// sitting, most recent first, before those that the history held. A file
/// already in the history moves to the top. The history file is written by
/// the program around the library, from [`FileHistorySaver::pending_text`].
#[derive(Debug)]
pub struct FileHistorySaver {
    pub data_file_dir: String,
    pub current: Vec<String>,
    pub new: Vec<String>,
}

impl FileHistorySaver {
    /// Whether no path is held twice, among the new files and those held before.
    pub open spec fn each_once(self) -> bool {
        (texts(self.new@) + texts(self.current@)).no_duplicates()
    }

    /// The name of the history file.
    pub open spec fn file_name() -> Seq<char> {
        "file_history.txt"@
    }

    /// A saver for the history under a data directory, given the lines that
    /// the history file holds, if it could be read.
    pub fn new(data_dir: &str, lines: &Option<Vec<HistoryLine>>) -> (r: FileHistorySaver)
        ensures
            r.data_file_dir@ == joined(data_dir@, Self::file_name()),
            texts(r.new@).len() == 0,
            texts(r.current@) == match *lines {
                Some(list) => with_files(Seq::empty(), list@),
                None => Seq::empty(),
            },
            r.each_once(),
    {
        let mut saver = FileHistorySaver {
            data_file_dir: String::new(),
            current: Vec::new(),
            new: Vec::new(),
        };
        assert(texts(saver.current@) =~= Seq::<Seq<char>>::empty());
        saver.load_from_data_dir(data_dir, lines);
        saver
    }

    pub fn load_from_config(&mut self, config: &Config, lines: &Option<Vec<HistoryLine>>)
        ensures
            final(self).data_file_dir@ == joined(config.config.data_dir@, Self::file_name()),
            texts(final(self).new@).len() == 0,
            texts(final(self).current@) == match *lines {
                Some(list) => with_files(texts(old(self).current@), list@),
                None => texts(old(self).current@),
            },
    {
        self.load_from_data_dir(config.config.data_dir.as_str(), lines);
    }

    /// Turns to the history under a data directory: the files among its
    /// lines join those already held, and nothing is left to write.
    pub fn load_from_data_dir(&mut self, data_dir: &str, lines: &Option<Vec<HistoryLine>>)
        ensures
            final(self).data_file_dir@ == joined(data_dir@, Self::file_name()),
            texts(final(self).new@).len() == 0,
            texts(final(self).current@) == match *lines {
                Some(list) => with_files(texts(old(self).current@), list@),
                None => texts(old(self).current@),
            },
            texts(old(self).current@).no_duplicates() ==> final(self).each_once(),
    {
        proof {
            if texts(old(self).current@).no_duplicates() {
                if lines is Some {
                    lemma_with_files_once(texts(old(self).current@), lines->0@);
                }
            }
        }
        if let Some(list) = lines {
            let mut i: usize = 0;
            assert(list@.subrange(0, 0) =~= Seq::<HistoryLine>::empty());
            while i < list.len()
                invariant
                    i <= list@.len(),
                    texts(self.current@) == with_files(
                        texts(old(self).current@),
                        list@.subrange(0, i as int),
                    ),
                decreases list@.len() - i,
            {
                let line = &list[i];
                proof {
                    let next = list@.subrange(0, i + 1);
                    assert(next.drop_last() =~= list@.subrange(0, i as int));
                    assert(next.last() == list@[i as int]);
                }
                if line.is_file && !holds(&self.current, line.path.as_str()) {
                    let ghost before = self.current@;
                    self.current.push(line.path.clone());
                    assert(texts(self.current@) =~= texts(before).push(line.path@));
                }
                i += 1;
            }
            assert(list@.subrange(0, i as int) =~= list@);
        }
        self.data_file_dir = path_join(data_dir, "file_history.txt");
        self.new = Vec::new();
        assert(texts(self.new@) =~= Seq::<Seq<char>>::empty());
    }

    /// Puts a file at the top of the history. Where no path was held twice,
    /// none is afterwards.
    pub fn push_to_history(&mut self, file: &str)
        ensures
            texts(final(self).current@) == without(texts(old(self).current@), file@),
            texts(final(self).new@) == seq![file@] + without(texts(old(self).new@), file@),
            final(self).data_file_dir == old(self).data_file_dir,
            old(self).each_once() ==> final(self).each_once(),
    {
        proof {
            if old(self).each_once() {
                lemma_pushed_once(texts(old(self).new@), texts(old(self).current@), file@);
            }
        }
        let current = remove_path(&self.current, file);
        let rest = remove_path(&self.new, file);
        let mut new: Vec<String> = Vec::new();
        new.push(file.to_owned());
        let mut i: usize = 0;
        assert(texts(new@) =~= seq![file@] + texts(rest@).subrange(0, 0));
        while i < rest.len()
            invariant
                i <= rest@.len(),
                texts(new@) == seq![file@] + texts(rest@).subrange(0, i as int),
            decreases rest@.len() - i,
        {
            let ghost before = new@;
            new.push(rest[i].clone());
            assert(texts(new@) =~= texts(before).push(rest@[i as int]@));
            i += 1;
            assert(texts(new@) =~= seq![file@] + texts(rest@).subrange(0, i as int));
        }
        assert(texts(rest@).subrange(0, i as int) =~= texts(rest@));
        self.current = current;
        self.new = new;
    }

    /// Whether files wait to be written to the history file.
    pub fn awaiting_write(&self) -> (r: bool)
        ensures
            r == (self.new@.len() > 0),
    {
        self.new.len() > 0
    }

    /// The text to write to the history file: the new files, then those held
    /// before; `None` while no file waits to be written.
    pub fn pending_text(&self) -> (r: Option<String>)
        ensures
            match r {
                Some(text) => self.new@.len() > 0 && text@ == history_text(
                    texts(self.new@) + texts(self.current@),
                ),
                None => self.new@.len() == 0,
            },
    {
        if !self.awaiting_write() {
            return None;
        }
        let mut text = String::new();
        append_lines(&mut text, &self.new, Ghost(Seq::empty()));
        assert(Seq::<Seq<char>>::empty() + texts(self.new@) =~= texts(self.new@));
        append_lines(&mut text, &self.current, Ghost(texts(self.new@)));
        Some(text)
    }

    /// Takes note that the history file was written: the new files are part
    /// of the history, at its top.
    pub fn written(&mut self)
        ensures
            texts(final(self).new@).len() == 0,
            texts(final(self).current@) == texts(old(self).new@) + texts(old(self).current@),
            final(self).data_file_dir == old(self).data_file_dir,
            old(self).each_once() ==> final(self).each_once(),
    {
        let mut all: Vec<String> = Vec::new();
        let mut i: usize = 0;
        while i < self.new.len()
            invariant
                i <= self.new@.len(),
                texts(all@) == texts(self.new@).subrange(0, i as int),
                *self == *old(self),
            decreases self.new@.len() - i,
        {
            let ghost before = all@;
            all.push(self.new[i].clone());
            assert(texts(all@) =~= texts(before).push(self.new@[i as int]@));
            i += 1;
            assert(texts(all@) =~= texts(self.new@).subrange(0, i as int));
        }
        assert(texts(self.new@).subrange(0, i as int) =~= texts(self.new@));
        let mut j: usize = 0;
        while j < self.current.len()
            invariant
                j <= self.current@.len(),
                texts(all@) == texts(self.new@) + texts(self.current@).subrange(0, j as int),
                *self == *old(self),
            decreases self.current@.len() - j,
        {
            let ghost before = all@;
            all.push(self.current[j].clone());
            assert(texts(all@) =~= texts(before).push(self.current@[j as int]@));
            j += 1;
            assert(texts(all@) =~= texts(self.new@) + texts(self.current@).subrange(0, j as int));
        }
        assert(texts(self.current@).subrange(0, j as int) =~= texts(self.current@));
        self.current = all;
        self.new = Vec::new();
    }
}

/// Taking a path out of paths that hold none twice leaves paths that hold
/// none twice, and not that path; and every path left was there before.
pub proof fn lemma_without(paths: Seq<Seq<char>>, path: Seq<char>)
    requires
        paths.no_duplicates(),
    ensures
        without(paths, path).no_duplicates(),
        !without(paths, path).contains(path),
        forall|p: Seq<char>| #[trigger] without(paths, path).contains(p) ==> paths.contains(p),
        forall|p: Seq<char>| paths.contains(p) && p != path ==> #[trigger] without(
            paths,
            path,
        ).contains(p),
    decreases paths.len(),
{
    reveal(Seq::filter);
    let pred = |p: Seq<char>| p != path;
    if paths.len() > 0 {
        let front = paths.drop_last();
        let last = paths.last();
        lemma_without(front, path);
        let kept = without(front, path);
        assert(forall|i: int| 0 <= i < front.len() ==> front[i] == paths[i]);
        assert(!front.contains(last)) by {
            if front.contains(last) {
                let i = choose|i: int| 0 <= i < front.len() && front[i] == last;
                assert(paths[i] == paths[paths.len() - 1]);
            }
        }
        assert forall|p: Seq<char>| #[trigger] paths.contains(p) implies front.contains(p) || p
            == last by {
            let i = choose|i: int| 0 <= i < paths.len() && paths[i] == p;
            if i < front.len() {
                assert(front[i] == p);
            }
        }
        assert forall|p: Seq<char>| front.contains(p) implies #[trigger] paths.contains(p) by {
            let i = choose|i: int| 0 <= i < front.len() && front[i] == p;
            assert(paths[i] == p);
        }
        assert(paths.contains(last)) by {
            assert(paths[paths.len() - 1] == last);
        }
        if pred(last) {
            assert(without(paths, path) == kept.push(last));
            assert(!kept.contains(last));
            assert forall|i: int, j: int|
                0 <= i < kept.push(last).len() && 0 <= j < kept.push(last).len() && i
                    != j implies kept.push(last)[i] != kept.push(last)[j] by {
                if i < kept.len() && j < kept.len() {
                } else if i < kept.len() {
                    assert(kept.contains(kept[i]));
                } else {
                    assert(kept.contains(kept[j]));
                }
            }
            assert forall|p: Seq<char>| #[trigger] kept.push(last).contains(p) implies kept.contains(
                p,
            ) || p == last by {
                let i = choose|i: int| 0 <= i < kept.push(last).len() && kept.push(last)[i] == p;
                if i < kept.len() {
                    assert(kept[i] == p);
                }
            }
            assert forall|p: Seq<char>| kept.contains(p) || p == last implies #[trigger] kept.push(
                last,
            ).contains(p) by {
                if kept.contains(p) {
                    let i = choose|i: int| 0 <= i < kept.len() && kept[i] == p;
                    assert(kept.push(last)[i] == p);
                } else {
                    assert(kept.push(last)[kept.len() as int] == p);
                }
            }
        } else {
            assert(without(paths, path) == kept);
        }
    }
}

/// Putting a path at the top of a history that holds no path twice, after
/// taking it out of both parts, gives a history that holds no path twice.
pub proof fn lemma_pushed_once(new: Seq<Seq<char>>, current: Seq<Seq<char>>, path: Seq<char>)
    requires
        (new + current).no_duplicates(),
    ensures
        ((seq![path] + without(new, path)) + without(current, path)).no_duplicates(),
{
    let pred = |p: Seq<char>| p != path;
    Seq::filter_distributes_over_add(new, current, pred);
    lemma_without(new + current, path);
    let rest = without(new + current, path);
    assert(rest == without(new, path) + without(current, path));
    let all = (seq![path] + without(new, path)) + without(current, path);
    assert(all =~= seq![path] + rest);
    assert forall|i: int, j: int| 0 <= i < all.len() && 0 <= j < all.len() && i != j implies all[i]
        != all[j] by {
        if i > 0 && j > 0 {
            assert(all[i] == rest[i - 1] && all[j] == rest[j - 1]);
        } else if i == 0 {
            assert(rest.contains(rest[j - 1]));
        } else {
            assert(rest.contains(rest[i - 1]));
        }
    }
}

/// Adding the files among history lines to paths that hold none twice
/// gives paths that hold none twice.
pub proof fn lemma_with_files_once(paths: Seq<Seq<char>>, lines: Seq<HistoryLine>)
    requires
        paths.no_duplicates(),
    ensures
        with_files(paths, lines).no_duplicates(),
    decreases lines.len(),
{
    if lines.len() > 0 {
        lemma_with_files_once(paths, lines.drop_last());
        let before = with_files(paths, lines.drop_last());
        let line = lines.last();
        if line.is_file && !before.contains(line.path@) {
            let all = before.push(line.path@);
            assert forall|i: int, j: int|
                0 <= i < all.len() && 0 <= j < all.len() && i != j implies all[i] != all[j] by {
                if i < before.len() && j < before.len() {
                } else if i < before.len() {
                    assert(before.contains(before[i]));
                } else {
                    assert(before.contains(before[j]));
                }
            }
        }
    }
}

/// Appends each path and a line feed to the text.
fn append_lines(text: &mut String, paths: &Vec<String>, Ghost(before): Ghost<Seq<Seq<char>>>)
    requires
        old(text)@ == history_text(before),
    ensures
        final(text)@ == history_text(before + texts(paths@)),
{
    let mut i: usize = 0;
    assert(before + texts(paths@).subrange(0, 0) =~= before);
    while i < paths.len()
        invariant
            i <= paths@.len(),
            text@ == history_text(before + texts(paths@).subrange(0, i as int)),
        decreases paths@.len() - i,
    {
        proof {
            let next = before + texts(paths@).subrange(0, i + 1);
            assert(next.drop_last() =~= before + texts(paths@).subrange(0, i as int));
            assert(next.last() == paths@[i as int]@);
            reveal_strlit("\n");
            assert("\n"@ =~= seq!['\n']);
        }
        let ghost start = text@;
        text.append(paths[i].as_str());
        text.push('\n');
        assert(text@ =~= start + paths@[i as int]@ + "\n"@);
        i += 1;
    }
    assert(texts(paths@).subrange(0, i as int) =~= texts(paths@));
}

/// Whether a path is among the paths.
fn holds(paths: &Vec<String>, path: &str) -> (r: bool)
    ensures
        r == texts(paths@).contains(path@),
{
    let mut i: usize = 0;
    while i < paths.len()
        invariant
            i <= paths@.len(),
            forall|k: int| 0 <= k < i ==> texts(paths@)[k] != path@,
        decreases paths@.len() - i,
    {
        if same_text(paths[i].as_str(), path) {
            assert(texts(paths@)[i as int] == path@);
            return true;
        }
        i += 1;
    }
    false
}

/// The paths without a given one.
fn remove_path(paths: &Vec<String>, path: &str) -> (r: Vec<String>)
    ensures
        texts(r@) == without(texts(paths@), path@),
{
    let mut kept: Vec<String> = Vec::new();
    let mut i: usize = 0;
    let ghost pred = |p: Seq<char>| p != path@;
    assert(texts(paths@).subrange(0, 0).filter(pred) =~= Seq::<Seq<char>>::empty()) by {
        reveal(Seq::filter);
    }
    while i < paths.len()
        invariant
            i <= paths@.len(),
            pred == |p: Seq<char>| p != path@,
            texts(kept@) == texts(paths@).subrange(0, i as int).filter(pred),
        decreases paths@.len() - i,
    {
        proof {
            let prefix = texts(paths@).subrange(0, i as int);
            assert(texts(paths@).subrange(0, i + 1) =~= prefix.push(paths@[i as int]@));
            assert(prefix.push(paths@[i as int]@).drop_last() =~= prefix);
            reveal(Seq::filter);
        }
        if !same_text(paths[i].as_str(), path) {
            let ghost before = kept@;
            kept.push(paths[i].clone());
            assert(texts(kept@) =~= texts(before).push(paths@[i as int]@));
        }
        i += 1;
    }
    assert(texts(paths@).subrange(0, i as int) =~= texts(paths@));
    kept
}

} // verus!
