use crate::natural::{compare_natural, natural_order};
use vstd::prelude::*;

verus! {

/// One entry of a directory, as the file system reported it.
#[derive(Debug)]
pub struct ListedFile {
    /// The path of the entry.
    pub path: String,
    /// Its last component.
    pub file_name: String,
    /// The extension of the file name, if it has one, without the dot.
    pub extension: Option<String>,
    /// Whether the entry is a regular file.
    pub is_file: bool,
    /// The canonical form of the path, where it could be resolved.
    pub canonical: Option<String>,
}

/// Whether `ext` is `svg` or `svgz`, in any mix of upper and lower case.
pub open spec fn is_svg_extension(ext: Seq<char>) -> bool {
    &&& ext.len() == 3 || ext.len() == 4
    &&& ext[0] == 's' || ext[0] == 'S'
    &&& ext[1] == 'v' || ext[1] == 'V'
    &&& ext[2] == 'g' || ext[2] == 'G'
    &&& ext.len() == 4 ==> ext[3] == 'z' || ext[3] == 'Z'
}

impl ListedFile {
    /// Whether the entry is a document the viewer opens: a regular file with
    /// an SVG extension.
    pub open spec fn is_svg(self) -> bool {
        &&& self.is_file
        &&& self.extension matches Some(ext)
        &&& is_svg_extension(ext@)
    }

    /// Whether the entry is the file at `file_path`. Canonical paths decide
    /// where both are known, the paths as given otherwise.
    pub open spec fn is_at(self, file_path: Seq<char>, canonical: Option<String>) -> bool {
        match (canonical, self.canonical) {
            (Some(wanted), Some(own)) => wanted@ == own@,
            _ => self.path@ == file_path,
        }
    }

    /// Whether the entry's file name comes after that of `other` in natural
    /// order.
    pub open spec fn sorts_after(self, other: ListedFile) -> bool {
        natural_order(self.file_name@, other.file_name@) > 0
    }
}

/// The documents among `listing`, in the order of the listing.
pub open spec fn svg_files(listing: Seq<ListedFile>) -> Seq<ListedFile>
    decreases listing.len(),
{
    if listing.len() == 0 {
        listing
    } else if listing.last().is_svg() {
        svg_files(listing.drop_last()).push(listing.last())
    } else {
        svg_files(listing.drop_last())
    }
}

/// Where `file` goes into `sorted`: behind the last entry that does not sort
/// after it.
pub open spec fn insertion_point(sorted: Seq<ListedFile>, file: ListedFile) -> int
    decreases sorted.len(),
{
    if sorted.len() > 0 && sorted.last().sorts_after(file) {
        insertion_point(sorted.drop_last(), file)
    } else {
        sorted.len() as int
    }
}

/// `files` in natural order of their file names: each entry in turn is put
/// at its insertion point among those before it.
pub open spec fn naturally_sorted(files: Seq<ListedFile>) -> Seq<ListedFile>
    decreases files.len(),
{
    if files.len() == 0 {
        files
    } else {
        let head = naturally_sorted(files.drop_last());
        head.insert(insertion_point(head, files.last()), files.last())
    }
}

/// Two neighbours are in order where the first does not sort after the
/// second, or the second sorts after the first.
pub open spec fn in_natural_order(first: ListedFile, second: ListedFile) -> bool {
    !first.sorts_after(second) || second.sorts_after(first)
}

/// Whether `index` is the position of the file at `file_path` in `files`:
/// the first entry that is that file, or 0 where none is.
pub open spec fn locates(
    files: Seq<ListedFile>,
    file_path: Seq<char>,
    canonical: Option<String>,
    index: int,
) -> bool {
    ||| {
        &&& 0 <= index < files.len()
        &&& files[index].is_at(file_path, canonical)
        &&& forall|j: int| 0 <= j < index ==> !(#[trigger] files[j]).is_at(file_path, canonical)
    }
    ||| {
        &&& index == 0
        &&& forall|j: int|
            0 <= j < files.len() ==> !(#[trigger] files[j]).is_at(file_path, canonical)
    }
}

fn is_letter(c: char, lower: char, upper: char) -> (yes: bool)
    ensures
        yes == (c == lower || c == upper),
{
    c == lower || c == upper
}

fn has_svg_extension(ext: &str) -> (yes: bool)
    ensures
        yes == is_svg_extension(ext@),
{
    let len = ext.unicode_len();
    if len != 3 && len != 4 {
        return false;
    }
    if !is_letter(ext.get_char(0), 's', 'S') {
        return false;
    }
    if !is_letter(ext.get_char(1), 'v', 'V') {
        return false;
    }
    if !is_letter(ext.get_char(2), 'g', 'G') {
        return false;
    }
    len == 3 || is_letter(ext.get_char(3), 'z', 'Z')
}

impl ListedFile {
    fn check_is_svg(&self) -> (yes: bool)
        ensures
            yes == self.is_svg(),
    {
        match &self.extension {
            Some(ext) => self.is_file && has_svg_extension(ext.as_str()),
            None => false,
        }
    }

    fn check_is_at(&self, file_path: &String, canonical: &Option<String>) -> (yes: bool)
        ensures
            yes == self.is_at(file_path@, *canonical),
    {
        match canonical {
            Some(wanted) => match &self.canonical {
                Some(own) => *wanted == *own,
                None => self.path == *file_path,
            },
            None => self.path == *file_path,
        }
    }
}

/// Drops from `listing` what is not a document, in place.
pub fn retain_svg_files(listing: &mut Vec<ListedFile>)
    ensures
        final(listing)@ == svg_files(old(listing)@),
{
    let ghost given = listing@;
    let ghost mut seen: int = 0;
    let mut kept: usize = 0;
    while kept < listing.len()
        invariant
            0 <= seen <= given.len(),
            kept <= listing@.len(),
            listing@.take(kept as int) == svg_files(given.take(seen)),
            listing@.skip(kept as int) == given.skip(seen),
        decreases listing@.len() - kept,
    {
        proof {
            assert(listing@.skip(kept as int).len() == given.skip(seen).len());
            assert(listing@.skip(kept as int)[0] == given.skip(seen)[0]);
            assert(given.take(seen + 1).drop_last() =~= given.take(seen));
            assert(given.take(seen + 1).last() == given[seen]);
        }
        let ghost before = listing@;
        if listing[kept].check_is_svg() {
            kept += 1;
            proof {
                assert(listing@.take(kept as int) =~= before.take(kept - 1).push(before[kept - 1]));
                assert(listing@.skip(kept as int) =~= before.skip(kept - 1).skip(1));
                assert(given.skip(seen + 1) =~= given.skip(seen).skip(1));
            }
        } else {
            listing.remove(kept);
            proof {
                assert(listing@.take(kept as int) =~= before.take(kept as int));
                assert(listing@.skip(kept as int) =~= before.skip(kept as int).skip(1));
                assert(given.skip(seen + 1) =~= given.skip(seen).skip(1));
            }
        }
        proof {
            seen = seen + 1;
        }
    }
    proof {
        assert(given.skip(seen).len() == 0);
        assert(given.take(seen) =~= given);
        assert(listing@.take(kept as int) =~= listing@);
    }
}

/// Sorts `files` by natural order of their file names, in place.
pub fn sort_naturally(files: &mut Vec<ListedFile>)
    ensures
        final(files)@ == naturally_sorted(old(files)@),
{
    let ghost given = files@;
    let len = files.len();
    let mut done: usize = 0;
    proof {
        assert(given.take(0) =~= Seq::<ListedFile>::empty());
    }
    while done < len
        invariant
            len == given.len(),
            files@.len() == len,
            done <= len,
            files@.take(done as int) == naturally_sorted(given.take(done as int)),
            files@.skip(done as int) == given.skip(done as int),
        decreases len - done,
    {
        let ghost before = files@;
        let ghost head = before.take(done as int);
        let ghost file = before[done as int];
        let mut at: usize = done;
        while at > 0 && compare_natural(
            files[at - 1].file_name.as_str(),
            files[done].file_name.as_str(),
        ) > 0
            invariant
                files@ == before,
                at <= done < before.len(),
                head == before.take(done as int),
                file == before[done as int],
                insertion_point(head, file) == insertion_point(before.take(at as int), file),
            decreases at,
        {
            proof {
                assert(before.take(at as int).last() == before[at - 1]);
                assert(before.take(at as int).drop_last() =~= before.take(at - 1));
            }
            at -= 1;
        }
        proof {
            if at > 0 {
                assert(before.take(at as int).last() == before[at - 1]);
            }
            assert(insertion_point(head, file) == at);
            assert(before.skip(done as int).len() == given.skip(done as int).len());
            assert(before.skip(done as int)[0] == given.skip(done as int)[0]);
            assert(given.take(done + 1).drop_last() =~= given.take(done as int));
            assert(given.take(done + 1).last() == file);
        }
        let moved = files.remove(done);
        files.insert(at, moved);
        done += 1;
        proof {
            assert(files@.take(done as int) =~= head.insert(at as int, file));
            assert(files@.skip(done as int) =~= before.skip(done as int));
            assert(before.skip(done as int) =~= before.skip(done - 1).skip(1));
            assert(given.skip(done as int) =~= given.skip(done - 1).skip(1));
        }
    }
    proof {
        assert(files@.take(len as int) =~= files@);
        assert(given.take(len as int) =~= given);
    }
}

/// Finds the position of the file at `file_path` among `files`.
pub fn locate(files: &Vec<ListedFile>, file_path: &str, canonical: &Option<String>) -> (index:
    usize)
    ensures
        locates(files@, file_path@, *canonical, index as int),
{
    let wanted = String::from_str(file_path);
    let mut i: usize = 0;
    while i < files.len()
        invariant
            i <= files@.len(),
            wanted@ == file_path@,
            forall|j: int| 0 <= j < i ==> !(#[trigger] files@[j]).is_at(file_path@, *canonical),
        decreases files@.len() - i,
    {
        if files[i].check_is_at(&wanted, canonical) {
            return i;
        }
        i += 1;
    }
    0
}

/// The paths of `files`, in order.
pub open spec fn paths_of(files: Seq<ListedFile>) -> Seq<Seq<char>> {
    Seq::new(files.len(), |i: int| files[i].path@)
}

/// The insertion point lies inside the list; the entry before it does not
/// sort after the file, and every entry from it on does.
pub proof fn lemma_insertion_point(sorted: Seq<ListedFile>, file: ListedFile)
    ensures
        0 <= insertion_point(sorted, file) <= sorted.len(),
        insertion_point(sorted, file) > 0 ==> !sorted[insertion_point(sorted, file) - 1].sorts_after(
            file,
        ),
        forall|k: int|
            insertion_point(sorted, file) <= k < sorted.len() ==> (#[trigger] sorted[k]).sorts_after(
                file,
            ),
    decreases sorted.len(),
{
    if sorted.len() > 0 && sorted.last().sorts_after(file) {
        let front = sorted.drop_last();
        lemma_insertion_point(front, file);
        assert forall|k: int| insertion_point(sorted, file) <= k < sorted.len() implies (
        #[trigger] sorted[k]).sorts_after(file) by {
            if k < front.len() {
                assert(front[k] == sorted[k]);
            }
        }
    }
}

/// Sorting keeps every entry, as often as it occurred: the result is a
/// rearrangement of the input.
pub proof fn lemma_sorted_is_permutation(files: Seq<ListedFile>)
    ensures
        naturally_sorted(files).len() == files.len(),
        naturally_sorted(files).to_multiset() == files.to_multiset(),
    decreases files.len(),
{
    if files.len() > 0 {
        let front = files.drop_last();
        let head = naturally_sorted(front);
        lemma_sorted_is_permutation(front);
        lemma_insertion_point(head, files.last());
        vstd::seq_lib::to_multiset_insert(head, insertion_point(head, files.last()), files.last());
        vstd::seq_lib::to_multiset_build(front, files.last());
        assert(front.push(files.last()) =~= files);
    }
}

/// In the sorted list every two neighbours are in natural order.
pub proof fn lemma_sorted_in_order(files: Seq<ListedFile>)
    ensures
        forall|i: int|
            0 <= i < naturally_sorted(files).len() - 1 ==> in_natural_order(
                #[trigger] naturally_sorted(files)[i],
                naturally_sorted(files)[i + 1],
            ),
    decreases files.len(),
{
    if files.len() > 0 {
        let file = files.last();
        let head = naturally_sorted(files.drop_last());
        let at = insertion_point(head, file);
        let sorted = naturally_sorted(files);
        lemma_sorted_in_order(files.drop_last());
        lemma_insertion_point(head, file);
        assert forall|i: int| 0 <= i < sorted.len() - 1 implies in_natural_order(
            #[trigger] sorted[i],
            sorted[i + 1],
        ) by {
            if i + 1 < at {
                assert(sorted[i] == head[i] && sorted[i + 1] == head[i + 1]);
            } else if i + 1 == at {
                assert(sorted[i] == head[at - 1] && sorted[i + 1] == file);
            } else if i == at {
                assert(sorted[i] == file && sorted[i + 1] == head[at]);
            } else {
                assert(sorted[i] == head[i - 1] && sorted[i + 1] == head[i]);
            }
        }
    }
}

/// A list in which no entry sorts after its right neighbour is left as it
/// is; in particular neighbours that compare equal keep their order.
pub proof fn lemma_sorted_input_is_kept(files: Seq<ListedFile>)
    requires
        forall|i: int| 0 <= i < files.len() - 1 ==> !(#[trigger] files[i]).sorts_after(files[i + 1]),
    ensures
        naturally_sorted(files) == files,
    decreases files.len(),
{
    if files.len() > 0 {
        let front = files.drop_last();
        assert forall|i: int| 0 <= i < front.len() - 1 implies !(#[trigger] front[i]).sorts_after(
            front[i + 1],
        ) by {
            assert(front[i] == files[i] && front[i + 1] == files[i + 1]);
        }
        lemma_sorted_input_is_kept(front);
        if front.len() > 0 {
            assert(front.last() == files[files.len() - 2]);
        }
        assert(front.insert(front.len() as int, files.last()) =~= files);
    }
}

/// Filtering keeps exactly the documents of the listing: an entry is among
/// the kept ones if and only if it is in the listing and is a document.
pub proof fn lemma_svg_files_are_the_documents(listing: Seq<ListedFile>, file: ListedFile)
    ensures
        svg_files(listing).contains(file) <==> listing.contains(file) && file.is_svg(),
    decreases listing.len(),
{
    if listing.len() > 0 {
        let front = listing.drop_last();
        lemma_svg_files_are_the_documents(front, file);
        assert(front.push(listing.last()) =~= listing);
        if svg_files(listing).contains(file) {
            let i = choose|i: int| 0 <= i < svg_files(listing).len() && svg_files(listing)[i] == file;
            if listing.last().is_svg() && i == svg_files(front).len() {
                assert(listing[listing.len() - 1] == file);
            } else {
                assert(svg_files(front)[i] == file);
                let k = choose|k: int| 0 <= k < front.len() && front[k] == file;
                assert(listing[k] == file);
            }
        }
        if listing.contains(file) && file.is_svg() {
            let k = choose|k: int| 0 <= k < listing.len() && listing[k] == file;
            if k == listing.len() - 1 {
                assert(svg_files(listing)[svg_files(front).len() as int] == file);
            } else {
                assert(front[k] == file);
                let i = choose|i: int| 0 <= i < svg_files(front).len() && svg_files(front)[i] == file;
                assert(svg_files(listing)[i] == file);
            }
        }
    }
}


/// Filtering and sorting lose and add nothing: the sorted documents are
/// exactly the entries of the listing that are documents.
pub proof fn lemma_sorted_documents_are_the_documents(listing: Seq<ListedFile>, file: ListedFile)
    ensures
        naturally_sorted(svg_files(listing)).contains(file) <==> listing.contains(file)
            && file.is_svg(),
{
    let kept = svg_files(listing);
    lemma_sorted_is_permutation(kept);
    lemma_svg_files_are_the_documents(listing, file);
    vstd::seq_lib::to_multiset_contains(kept, file);
    vstd::seq_lib::to_multiset_contains(naturally_sorted(kept), file);
}

/// The position of a file is determined: two indices that both locate it are
/// the same.
pub proof fn lemma_location_is_unique(
    files: Seq<ListedFile>,
    file_path: Seq<char>,
    canonical: Option<String>,
    first: int,
    second: int,
)
    requires
        locates(files, file_path, canonical, first),
        locates(files, file_path, canonical, second),
    ensures
        first == second,
{
    if first < second {
        assert(0 <= first < files.len() ==> !files[first].is_at(file_path, canonical));
    } else if second < first {
        assert(0 <= second < files.len() ==> !files[second].is_at(file_path, canonical));
    }
}

} // verus!
