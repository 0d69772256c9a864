use crate::decimal::{decimal, decimal_string};
use crate::listing::{
    locate, locates, naturally_sorted, paths_of, retain_svg_files, sort_naturally, svg_files,
    ListedFile,
};
use vstd::prelude::*;

verus! {

/// The position after `index` in a cycle of `len` files.
pub open spec fn next_index(index: int, len: int) -> int {
    (index + 1) % len
}

/// The position before `index` in a cycle of `len` files.
pub open spec fn prev_index(index: int, len: int) -> int {
    if index == 0 {
        len - 1
    } else {
        index - 1
    }
}

/// What the status bar shows for position `index` among `len` files.
pub open spec fn position_text(index: nat, len: nat) -> Seq<char> {
    if len == 0 {
        Seq::empty()
    } else {
        decimal(index + 1) + "/"@ + decimal(len)
    }
}

/// The documents of one directory, in natural order of their file names, and
/// the position of the one that is shown.
pub struct FileNavigator {
    pub files: Vec<String>,
    pub current_index: usize,
}

impl FileNavigator {
    /// The current index points into the list, or is 0 where the list is
    /// empty.
    pub open spec fn wf(&self) -> bool {
        self.current_index == 0 || self.current_index < self.files@.len()
    }

    pub fn new() -> (nav: Self)
        ensures
            nav.files@.len() == 0,
            nav.current_index == 0,
            nav.wf(),
    {
        FileNavigator { files: Vec::new(), current_index: 0 }
    }

    /// The paths of the files, in order.
    pub open spec fn paths(&self) -> Seq<Seq<char>> {
        Seq::new(self.files@.len(), |i: int| self.files@[i]@)
    }

    /// Rebuilds the list from the `listing` of the directory that holds the
    /// file at `file_path`: the documents among the entries, in natural order
    /// of their file names, with the index on the entry that is that file
    /// (on the first entry where none is). `canonical` is the canonical form
    /// of `file_path`, where it could be resolved.
    pub fn scan_directory(
        &mut self,
        file_path: &str,
        canonical: Option<String>,
        listing: Vec<ListedFile>,
    )
        ensures
            final(self).wf(),
            final(self).paths() == paths_of(naturally_sorted(svg_files(listing@))),
            locates(
                naturally_sorted(svg_files(listing@)),
                file_path@,
                canonical,
                final(self).current_index as int,
            ),
    {
        let mut found = listing;
        retain_svg_files(&mut found);
        sort_naturally(&mut found);
        let index = locate(&found, file_path, &canonical);
        let mut files: Vec<String> = Vec::new();
        let mut i: usize = 0;
        while i < found.len()
            invariant
                i <= found@.len(),
                files@.len() == i,
                forall|k: int| 0 <= k < i ==> files@[k]@ == found@[k].path@,
            decreases found@.len() - i,
        {
            files.push(found[i].path.clone());
            i += 1;
        }
        self.files = files;
        self.current_index = index;
        assert(self.paths() =~= paths_of(found@));
    }

    /// Steps to the next file, from the last one to the first. On an empty
    /// list nothing changes and nothing is returned.
    pub fn next(&mut self) -> (file: Option<&String>)
        requires
            old(self).wf(),
        ensures
            final(self).wf(),
            final(self).files == old(self).files,
            old(self).files@.len() == 0 ==> file.is_none() && final(self).current_index == old(
                self,
            ).current_index,
            old(self).files@.len() > 0 ==> {
                &&& final(self).current_index == next_index(
                    old(self).current_index as int,
                    old(self).files@.len() as int,
                )
                &&& file == Some(&old(self).files@[final(self).current_index as int])
            },
    {
        if self.files.len() == 0 {
            return None;
        }
        proof {
            lemma_next_index_wraps(self.current_index as int, self.files@.len() as int);
        }
        self.current_index = if self.current_index + 1 == self.files.len() {
            0
        } else {
            self.current_index + 1
        };
        Some(&self.files[self.current_index])
    }

    /// Steps to the previous file, from the first one to the last. On an
    /// empty list nothing changes and nothing is returned.
    pub fn prev(&mut self) -> (file: Option<&String>)
        requires
            old(self).wf(),
        ensures
            final(self).wf(),
            final(self).files == old(self).files,
            old(self).files@.len() == 0 ==> file.is_none() && final(self).current_index == old(
                self,
            ).current_index,
            old(self).files@.len() > 0 ==> {
                &&& final(self).current_index == prev_index(
                    old(self).current_index as int,
                    old(self).files@.len() as int,
                )
                &&& file == Some(&old(self).files@[final(self).current_index as int])
            },
    {
        if self.files.len() == 0 {
            return None;
        }
        self.current_index = if self.current_index == 0 {
            self.files.len() - 1
        } else {
            self.current_index - 1
        };
        Some(&self.files[self.current_index])
    }

    /// The file that is shown, if the index points at one.
    pub fn current(&self) -> (file: Option<&String>)
        ensures
            self.current_index < self.files@.len() ==> file == Some(
                &self.files@[self.current_index as int],
            ),
            self.current_index >= self.files@.len() ==> file.is_none(),
    {
        if self.current_index < self.files.len() {
            Some(&self.files[self.current_index])
        } else {
            None
        }
    }

    /// The position as shown in the status bar: the one-based index, a
    /// slash and the number of files; empty where there are no files.
    pub fn position_display(&self) -> (text: String)
        requires
            self.wf(),
        ensures
            text@ == position_text(self.current_index as nat, self.files@.len()),
    {
        if self.files.len() == 0 {
            String::new()
        } else {
            let text = decimal_string(self.current_index + 1).concat("/");
            text.concat(decimal_string(self.files.len()).as_str())
        }
    }

    pub fn file_count(&self) -> (count: usize)
        ensures
            count == self.files@.len(),
    {
        self.files.len()
    }
}

/// The step forward without a remainder: one up, and from the last position
/// to 0.
pub proof fn lemma_next_index_wraps(index: int, len: int)
    requires
        0 <= index < len,
    ensures
        next_index(index, len) == if index + 1 == len {
            0
        } else {
            index + 1
        },
{
    if index + 1 == len {
        vstd::arithmetic::div_mod::lemma_mod_self_0(len);
    } else {
        vstd::arithmetic::div_mod::lemma_small_mod((index + 1) as nat, len as nat);
    }
}

/// Stepping forward from the last file reaches the first, stepping back from
/// the first reaches the last, every step stays inside the list, and the two
/// steps undo each other.
pub proof fn lemma_navigation_is_cyclic(index: int, len: int)
    requires
        0 <= index < len,
    ensures
        0 <= next_index(index, len) < len,
        0 <= prev_index(index, len) < len,
        next_index(len - 1, len) == 0,
        prev_index(0, len) == len - 1,
        index < len - 1 ==> next_index(index, len) == index + 1,
        prev_index(next_index(index, len), len) == index,
        next_index(prev_index(index, len), len) == index,
{
    lemma_next_index_wraps(index, len);
    lemma_next_index_wraps(len - 1, len);
    lemma_next_index_wraps(prev_index(index, len), len);
}

} // verus!
