use crate::errors::{ListError, ListErrorKind};
use crate::store::ParentDirectory;
use vstd::prelude::*;
use vstd::string::*;

verus! {

/// One result of enumerating the matches of a glob: a path that could not be
/// read, or a matched path with whether it is a regular file and its text
/// (none where the path is not valid text).
#[derive(Debug)]
pub enum ListEntry {
    Unreadable(glob::GlobError),
    Matched { is_file: bool, text: Option<String> },
}

/// Whether an entry is kept in a listing: a regular file whose path is text.
pub open spec fn kept(e: ListEntry) -> bool {
    e matches ListEntry::Matched { is_file: true, text: Some(_) }
}

/// The text of a kept entry.
pub open spec fn kept_text(e: ListEntry) -> Seq<char> {
    match e {
        ListEntry::Matched { text: Some(t), .. } => t@,
        _ => Seq::empty(),
    }
}

/// The paths that a listing of `entries` holds, in their order: the text of
/// each regular file, all else left out.
pub open spec fn listed(entries: Seq<ListEntry>) -> Seq<Seq<char>>
    decreases entries.len(),
{
    if entries.len() == 0 {
        Seq::empty()
    } else {
        let rest = listed(entries.drop_last());
        if kept(entries.last()) {
            rest.push(kept_text(entries.last()))
        } else {
            rest
        }
    }
}

/// A matched path as the store's caller sees it: relative to `parent`
/// where it lies under `parent/`, else as the matcher gave it.
pub open spec fn relative_to(parent: Seq<char>, path: Seq<char>) -> Seq<char> {
    let prefix = parent + seq!['/'];
    if prefix.is_prefix_of(path) {
        path.subrange(prefix.len() as int, path.len() as int)
    } else {
        path
    }
}

/// The views of a sequence of strings.
pub open spec fn views(v: Seq<String>) -> Seq<Seq<char>> {
    v.map_values(|p: String| p@)
}

/// Each path of `paths` relative to `parent`.
pub open spec fn all_relative_to(parent: Seq<char>, paths: Seq<Seq<char>>) -> Seq<Seq<char>> {
    paths.map_values(|t: Seq<char>| relative_to(parent, t))
}

/// Whether no entry of `entries` is an unreadable path.
pub open spec fn all_readable(entries: Seq<ListEntry>) -> bool {
    forall|i: int| 0 <= i < entries.len() ==> !(#[trigger] entries[i] is Unreadable)
}

/// Whether `path` is the text of a regular file among `entries`.
pub open spec fn is_listed_file(entries: Seq<ListEntry>, path: Seq<char>) -> bool {
    exists|j: int| 0 <= j < entries.len() && kept(entries[j]) && #[trigger] kept_text(entries[j]) == path
}

/// A listing holds only regular files: each path in it is the text of an
/// entry that matched, is a regular file, and is valid text.
pub proof fn listed_only_files(entries: Seq<ListEntry>)
    ensures
        forall|i: int|
            0 <= i < listed(entries).len() ==> is_listed_file(entries, #[trigger] listed(entries)[i]),
    decreases entries.len(),
{
    if entries.len() > 0 {
        let rest = entries.drop_last();
        let last = entries[entries.len() - 1];
        listed_only_files(rest);
        if kept(last) {
            assert(listed(entries) == listed(rest).push(kept_text(last)));
        } else {
            assert(listed(entries) == listed(rest));
        }
        assert forall|i: int| 0 <= i < listed(entries).len() implies is_listed_file(
            entries,
            #[trigger] listed(entries)[i],
        ) by {
            if i < listed(rest).len() {
                assert(is_listed_file(rest, listed(rest)[i]));
                let j = choose|j: int|
                    0 <= j < rest.len() && kept(rest[j]) && #[trigger] kept_text(rest[j])
                        == listed(rest)[i];
                assert(entries[j] == rest[j]);
                assert(listed(entries)[i] == listed(rest)[i]);
            } else {
                assert(kept_text(entries[entries.len() - 1]) == listed(entries)[i]);
            }
        }
    }
}

/// Where no match is a regular file with a text path (in particular, where
/// nothing matched), the listing is empty.
pub proof fn no_files_listed_empty(entries: Seq<ListEntry>)
    requires
        forall|i: int| 0 <= i < entries.len() ==> !kept(#[trigger] entries[i]),
    ensures
        listed(entries) == Seq::<Seq<char>>::empty(),
    decreases entries.len(),
{
    if entries.len() > 0 {
        let rest = entries.drop_last();
        assert forall|i: int| 0 <= i < rest.len() implies !kept(#[trigger] rest[i]) by {
            assert(rest[i] == entries[i]);
        }
        no_files_listed_empty(rest);
        assert(!kept(entries[entries.len() - 1]));
    }
}

impl ParentDirectory {
    /// `path` relative to the parent directory, where it lies under it.
    pub fn relative_path(&self, path: &str) -> (r: String)
        ensures
            r@ == relative_to(self.parent@, path@),
    {
        let prefix = self.with_parent("");
        proof {
            reveal_strlit("");
            assert(prefix@ == self.parent@ + seq!['/']);
        }
        let n = prefix.as_str().unicode_len();
        let len = path.unicode_len();
        if n > len {
            return String::from_str(path);
        }
        let mut i: usize = 0;
        while i < n
            invariant
                prefix@ == self.parent@ + seq!['/'],
                n == prefix@.len(),
                len == path@.len(),
                n <= len,
                0 <= i <= n,
                forall|j: int| 0 <= j < i ==> prefix@[j] == path@[j],
            decreases n - i,
        {
            if prefix.as_str().get_char(i) != path.get_char(i) {
                proof {
                    assert(path@.subrange(0, n as int)[i as int] != prefix@[i as int]);
                }
                return String::from_str(path);
            }
            i = i + 1;
        }
        String::from_str(path.substring_char(n, len))
    }

    /// The result of listing `expression`, given what the glob matcher gave
    /// for the pattern `with_parent(expression)`: a syntax error of the
    /// pattern; or else the first unreadable path, if any; or else the paths
    /// of the regular files among the matches, in the matcher's order.
    pub fn collect_listing(
        &self,
        expression: &str,
        outcome: Result<Vec<ListEntry>, glob::PatternError>,
    ) -> (r: Result<Vec<String>, ListError>)
        ensures
            match outcome {
                Err(cause) => r matches Err(e) && e.expression@ == expression@ && e.kind
                    == ListErrorKind::ParseGlob(cause),
                Ok(entries) => if all_readable(entries@) {
                    r matches Ok(paths) && views(paths@) == all_relative_to(
                        self.parent@,
                        listed(entries@),
                    )
                } else {
                    exists|k: int|
                        #![trigger entries@[k]]
                        0 <= k < entries@.len() && all_readable(entries@.take(k))
                            && entries@[k] is Unreadable && r is Err
                            && r->Err_0.expression@ == expression@ && r->Err_0.kind
                            == ListErrorKind::ReadPath(
                            entries@[k]->Unreadable_0,
                        )
                },
            },
    {
        let mut entries = match outcome {
            Err(cause) => {
                return Err(
                    ListError {
                        expression: String::from_str(expression),
                        kind: ListErrorKind::ParseGlob(cause),
                    },
                );
            },
            Ok(entries) => entries,
        };
        let ghost all = entries@;
        let mut paths: Vec<String> = Vec::new();
        let mut i: usize = 0;
        while i < entries.len()
            invariant
                entries@ == all,
                0 <= i <= all.len(),
                all_readable(all.take(i as int)),
                views(paths@) == all_relative_to(self.parent@, listed(all.take(i as int))),
            ensures
                i < all.len() ==> all[i as int] is Unreadable,
            decreases all.len() - i,
        {
            assert(all.take(i as int + 1).drop_last() == all.take(i as int));
            match &entries[i] {
                ListEntry::Unreadable(_) => {
                    break;
                },
                ListEntry::Matched { is_file, text } => {
                    if *is_file {
                        if let Some(t) = text {
                            let ghost before = paths@;
                            let rel = self.relative_path(t.as_str());
                            paths.push(rel);
                            proof {
                                let f = all_relative_to(self.parent@, listed(all.take(i as int)));
                                assert(all.take(i as int + 1).last() == all[i as int]);
                                assert(listed(all.take(i as int + 1)) == listed(
                                    all.take(i as int),
                                ).push(t@));
                                assert(all_relative_to(
                                    self.parent@,
                                    listed(all.take(i as int + 1)),
                                ) =~= f.push(rel@));
                                assert(views(paths@) =~= views(before).push(rel@));
                            }
                        }
                    }
                },
            }
            i = i + 1;
        }
        if i < entries.len() {
            let taken = entries.remove(i);
            match taken {
                ListEntry::Unreadable(cause) => {
                    return Err(
                        ListError {
                            expression: String::from_str(expression),
                            kind: ListErrorKind::ReadPath(cause),
                        },
                    );
                },
                ListEntry::Matched { .. } => {
                    return Ok(paths);
                },
            }
        }
        assert(all.take(i as int) == all);
        Ok(paths)
    }
}

} // verus!
