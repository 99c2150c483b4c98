//! A snapshot of the filesystem facts the resolver consults.
//!
//! The resolver itself never touches the disk: a caller records which paths
//! exist and what the readable metadata files hold, and the resolution logic
//! is a pure function of that snapshot. A path is judged present exactly when
//! the snapshot lists it; reading a file yields the content recorded for the
//! first entry with that path.

use vstd::prelude::*;
use crate::text::contains_view;
use crate::text::vec_contains_string;
use crate::text::view_opt;

verus! {

/// One readable file: its path and its text content.
#[derive(Clone, Debug)]
pub struct FsFile {
    pub path: String,
    pub content: String,
}

/// The filesystem facts available to resolution: which paths exist, and the
/// content of the readable metadata files.
#[derive(Clone, Debug)]
pub struct FsSnapshot {
    pub present: Vec<String>,
    pub files: Vec<FsFile>,
}

/// The content recorded for the first entry of `files` whose path views as
/// `p`, if any.
pub open spec fn file_content_of(files: Seq<FsFile>, p: Seq<char>) -> Option<Seq<char>>
    decreases files.len(),
{
    if files.len() == 0 {
        None
    } else if files[0].path@ == p {
        Some(files[0].content@)
    } else {
        file_content_of(files.drop_first(), p)
    }
}

impl FsSnapshot {
    /// Whether the snapshot lists `p` as an existing path.
    pub open spec fn has_path(&self, p: Seq<char>) -> bool {
        contains_view(self.present@, p)
    }

    /// The recorded content of the file at `p`, if any.
    pub open spec fn content_spec(&self, p: Seq<char>) -> Option<Seq<char>> {
        file_content_of(self.files@, p)
    }

    /// An empty snapshot: no paths, no files.
    pub fn new() -> (r: Self)
        ensures
            forall|p: Seq<char>| !r.has_path(p),
            forall|p: Seq<char>| r.content_spec(p) is None,
    {
        FsSnapshot { present: Vec::new(), files: Vec::new() }
    }

    /// Exec test of [`FsSnapshot::has_path`].
    pub fn path_exists(&self, p: &String) -> (r: bool)
        ensures
            r == self.has_path(p@),
    {
        vec_contains_string(&self.present, p)
    }

    /// Read the recorded content of the file at `p`.
    pub fn read_file(&self, p: &String) -> (r: Option<String>)
        ensures
            view_opt(r) == self.content_spec(p@),
    {
        let n: usize = self.files.len();
        proof {
            assert(self.files@.skip(0) =~= self.files@);
        }
        let mut i: usize = 0;
        while i < n
            invariant
                0 <= i <= n,
                n == self.files@.len(),
                file_content_of(self.files@, p@) == file_content_of(
                    self.files@.skip(i as int),
                    p@,
                ),
            decreases n - i,
        {
            proof {
                assert(self.files@.skip(i as int)[0] == self.files@[i as int]);
                assert(self.files@.skip(i as int).drop_first() =~= self.files@.skip(i + 1));
            }
            if self.files[i].path.eq(p) {
                return Some(self.files[i].content.clone());
            }
            i = i + 1;
        }
        proof {
            assert(self.files@.skip(n as int).len() == 0);
        }
        None
    }

    /// Record `p` as an existing path.
    pub fn add_present(&mut self, p: String)
        ensures
            forall|q: Seq<char>| final(self).has_path(q) == (old(self).has_path(q) || p@ == q),
            final(self).files == old(self).files,
    {
        proof {
            crate::text::lemma_insert_contains(self.present@, self.present@.len() as int, p);
            assert(self.present@.insert(self.present@.len() as int, p) =~= self.present@.push(
                p,
            ));
        }
        self.present.push(p);
    }

    /// Record the content of the readable file at `p`.
    pub fn add_file(&mut self, p: String, content: String)
        ensures
            final(self).present == old(self).present,
            forall|q: Seq<char>|
                final(self).content_spec(q) == (if old(self).content_spec(q) is Some {
                    old(self).content_spec(q)
                } else if p@ == q {
                    Some(content@)
                } else {
                    None
                }),
    {
        let ghost oldfiles = self.files@;
        let f = FsFile { path: p, content: content };
        self.files.push(f);
        proof {
            lemma_file_content_push(oldfiles, f);
        }
    }
}

proof fn lemma_file_content_push(files: Seq<FsFile>, f: FsFile)
    ensures
        forall|q: Seq<char>|
            file_content_of(files.push(f), q) == (if file_content_of(files, q) is Some {
                file_content_of(files, q)
            } else if f.path@ == q {
                Some(f.content@)
            } else {
                None
            }),
    decreases files.len(),
{
    if files.len() == 0 {
        assert forall|q: Seq<char>| true implies file_content_of(files.push(f), q) == (
        if file_content_of(files, q) is Some {
            file_content_of(files, q)
        } else if f.path@ == q {
            Some(f.content@)
        } else {
            None
        }) by {
            reveal_with_fuel(file_content_of, 3);
            assert(files.push(f)[0] == f);
            assert(files.push(f).drop_first() =~= Seq::<FsFile>::empty());
        }
    } else {
        lemma_file_content_push(files.drop_first(), f);
        assert forall|q: Seq<char>| true implies file_content_of(files.push(f), q) == (
        if file_content_of(files, q) is Some {
            file_content_of(files, q)
        } else if f.path@ == q {
            Some(f.content@)
        } else {
            None
        }) by {
            reveal_with_fuel(file_content_of, 3);
            assert(files.push(f)[0] == files[0]);
            assert(files.push(f).drop_first() =~= files.drop_first().push(f));
            assert(file_content_of(files.push(f).drop_first(), q) == file_content_of(
                files.drop_first().push(f),
                q,
            ));
        }
    }
}

} // verus!
