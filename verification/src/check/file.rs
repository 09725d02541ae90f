//! The probe that passes while a path exists.

use crate::check::Check;
use vstd::prelude::*;
use vstd::string::*;

verus! {

/// A probe for the existence of a path.
#[derive(Debug)]
pub struct FileCheck {
    path: String,
    description: String,
}

impl FileCheck {
    /// The name is `file:` followed by the path.
    #[verifier::type_invariant]
    pub closed spec fn wf(&self) -> bool {
        self.description@ == "file:"@ + self.path@
    }

    /// The path that is looked for.
    pub closed spec fn path(&self) -> Seq<char> {
        self.path@
    }

    /// A probe for `path`.
    pub fn new(path: &str) -> (check: FileCheck)
        ensures
            check.path() == path@,
            check.wf(),
    {
        let description = String::from_str("file:").concat(path);
        FileCheck { path: String::from_str(path), description }
    }

    /// The path that is looked for.
    pub fn target(&self) -> (path: &str)
        ensures
            path@ == self.path(),
    {
        self.path.as_str()
    }

    /// Judges one look at the path: the probe passes where the path was
    /// found, and fails with a reason where it was not.
    pub fn evaluate(&self, found: bool) -> (r: Result<(), String>)
        ensures
            found <==> r is Ok,
            r matches Err(reason) ==> reason@ == "file "@ + self.path() + " does not exist"@,
    {
        if found {
            Ok(())
        } else {
            Err(String::from_str("file ").concat(self.path.as_str()).concat(" does not exist"))
        }
    }
}

impl Check for FileCheck {
    open spec fn label(&self) -> Seq<char> {
        "file:"@ + self.path()
    }

    fn description(&self) -> (d: &str) {
        proof {
            use_type_invariant(self);
        }
        self.description.as_str()
    }
}

} // verus!
