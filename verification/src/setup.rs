//! The directory structure the service needs on disk, and the check that
//! bootstrapping it succeeded. Creating the directories is I/O and happens
//! outside this crate; the outcome of each creation is handed back in.

use vstd::prelude::*;

verus! {

/// Why system setup failed.
#[derive(Debug, PartialEq, Eq)]
pub enum SetupError {
    /// Some required directory could not be ensured.
    DirectoryStructure,
}

impl SetupError {
    /// A human-readable description of the failure.
    pub fn message(&self) -> (r: String)
        ensures
            r@ == "Checks for directory structure failed"@,
    {
        String::from_str("Checks for directory structure failed")
    }
}

/// The directories the service needs, in the order they must be created
/// (each is nested in its predecessor's tree).
pub fn required_directories() -> (r: Vec<String>)
    ensures
        r@.len() == 4,
        r@[0]@ == "data"@,
        r@[1]@ == "data/cache"@,
        r@[2]@ == "data/cache/media"@,
        r@[3]@ == "data/cache/meta"@,
{
    let mut dirs: Vec<String> = Vec::new();
    dirs.push(("data").to_owned());
    dirs.push(("data/cache").to_owned());
    dirs.push(("data/cache/media").to_owned());
    dirs.push(("data/cache/meta").to_owned());
    dirs
}

/// Judges system bootstrap: `ensured` holds, for each entry of
/// [`required_directories`] in order, whether that directory now exists
/// and is writable. Setup succeeded exactly when every one of the four
/// was ensured.
pub fn setup_system(ensured: &Vec<bool>) -> (r: Result<(), SetupError>)
    ensures
        r is Ok <==> (ensured@.len() == 4 && forall|i: int| 0 <= i < 4 ==> ensured@[i]),
        r is Err ==> r == Result::<(), SetupError>::Err(SetupError::DirectoryStructure),
{
    if ensured.len() != 4 {
        return Err(SetupError::DirectoryStructure);
    }
    let mut i: usize = 0;
    while i < ensured.len()
        invariant
            0 <= i <= ensured@.len(),
            forall|j: int| 0 <= j < i ==> ensured@[j],
        decreases ensured@.len() - i,
    {
        if !ensured[i] {
            return Err(SetupError::DirectoryStructure);
        }
        i = i + 1;
    }
    Ok(())
}

} // verus!
