//! The plan: a name and the files to move, in the order in which they are
//! moved and reported.

use crate::error::{Error, ErrorKind, ErrorView};
use crate::path::{contains_parent_segment, has_parent_segment};
use vstd::prelude::*;
use vstd::string::*;

verus! {

/// A named set of files. `name` is also the name of the staging directory
/// below the working directory; each entry of `files` is a path relative to
/// whichever side a transfer reads from.
#[derive(Debug)]
pub struct Plan {
    pub name: String,
    pub files: Vec<String>,
}

/// What a [`Plan`] stands for.
pub struct PlanView {
    pub name: Seq<char>,
    pub files: Seq<Seq<char>>,
}

impl View for Plan {
    type V = PlanView;

    open spec fn view(&self) -> PlanView {
        PlanView { name: self.name@, files: self.files.deep_view() }
    }
}

impl PlanView {
    /// No declared file has a `..` segment, so that none leaves the directory
    /// it is resolved against.
    pub open spec fn confined(self) -> bool {
        forall|i: int| 0 <= i < self.files.len() ==> !has_parent_segment(#[trigger] self.files[i])
    }
}

/// What the caller found where the manifest was expected.
#[derive(Debug)]
pub enum Manifest {
    /// The file could not be read; the text says why.
    Unreadable(String),
    /// The text is not a mapping with a string `name` and a sequence of
    /// strings `files`; the text says what is wrong with it.
    Malformed(String),
    /// The two fields of the mapping, as they were written.
    Decoded { name: String, files: Vec<String> },
}

/// Entry `i` of `files` is the first with a `..` segment.
pub open spec fn first_traversal_at(files: Seq<Seq<char>>, i: int) -> bool {
    &&& 0 <= i < files.len()
    &&& has_parent_segment(files[i])
    &&& forall|j: int| 0 <= j < i ==> !has_parent_segment(#[trigger] files[j])
}

/// The failure for a manifest at `path` that could not be read.
pub open spec fn manifest_read_error(path: Seq<char>, cause: Seq<char>) -> ErrorView {
    ErrorView {
        kind: ErrorKind::ManifestRead,
        message: "Error reading plan file "@ + path + " - "@ + cause,
    }
}

/// The failure for a manifest at `path` whose text describes no plan.
pub open spec fn manifest_parse_error(path: Seq<char>, cause: Seq<char>) -> ErrorView {
    ErrorView {
        kind: ErrorKind::ManifestParse,
        message: "Error parsing plan "@ + path + " - "@ + cause,
    }
}

/// The failure for a manifest that declares `file`, which has a `..` segment.
pub open spec fn path_traversal_error(file: Seq<char>) -> ErrorView {
    ErrorView {
        kind: ErrorKind::ManifestPathTraversal,
        message: "Files cannot contain .. - "@ + file,
    }
}

/// The position of the first entry of `files` with a `..` segment.
fn find_traversal(files: &Vec<String>) -> (found: Option<usize>)
    ensures
        match found {
            Some(i) => first_traversal_at(files.deep_view(), i as int),
            None => forall|i: int|
                0 <= i < files.len() ==> !has_parent_segment(#[trigger] files.deep_view()[i]),
        },
{
    for i in 0..files.len()
        invariant
            forall|j: int| 0 <= j < i ==> !has_parent_segment(#[trigger] files.deep_view()[j]),
    {
        if contains_parent_segment(files[i].as_str()) {
            return Some(i);
        }
    }
    None
}

impl Plan {
    /// The plan that a manifest at `path` describes.
    ///
    /// A manifest that was read and decoded gives a plan with its name and
    /// its files, unless one of the files has a `..` segment: then the first
    /// such file is reported. A manifest that could not be read or decoded
    /// gives the matching failure, with the path and the caller's reason in
    /// the message.
    pub fn load(path: &str, manifest: Manifest) -> (loaded: Result<Plan, Error>)
        ensures
            match manifest {
                Manifest::Unreadable(cause) => loaded matches Err(e) && e@ == manifest_read_error(
                    path@,
                    cause@,
                ),
                Manifest::Malformed(cause) => loaded matches Err(e) && e@ == manifest_parse_error(
                    path@,
                    cause@,
                ),
                Manifest::Decoded { name, files } => {
                    let declared = PlanView { name: name@, files: files.deep_view() };
                    if declared.confined() {
                        loaded matches Ok(plan) && plan@ == declared
                    } else {
                        loaded matches Err(e) && exists|i: int|
                            {
                                &&& first_traversal_at(declared.files, i)
                                &&& e@ == path_traversal_error(#[trigger] declared.files[i])
                            }
                    }
                },
            },
    {
        match manifest {
            Manifest::Unreadable(cause) => {
                let mut details = String::from_str("Error reading plan file ");
                details.append(path);
                details.append(" - ");
                details.append(cause.as_str());
                Err(Error::new(ErrorKind::ManifestRead, details))
            },
            Manifest::Malformed(cause) => {
                let mut details = String::from_str("Error parsing plan ");
                details.append(path);
                details.append(" - ");
                details.append(cause.as_str());
                Err(Error::new(ErrorKind::ManifestParse, details))
            },
            Manifest::Decoded { name, files } => {
                match find_traversal(&files) {
                    Some(i) => {
                        let mut details = String::from_str("Files cannot contain .. - ");
                        details.append(files[i].as_str());
                        proof {
                            let declared = PlanView { name: name@, files: files.deep_view() };
                            assert(has_parent_segment(declared.files[i as int]));
                        }
                        Err(Error::new(ErrorKind::ManifestPathTraversal, details))
                    },
                    None => Ok(Plan { name, files }),
                }
            },
        }
    }
}

} // verus!
