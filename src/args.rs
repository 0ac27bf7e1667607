//! The parsed command line and the operation it selects.
use vstd::prelude::*;

verus! {

/// The three operations that the front-end can select.
#[derive(Clone, Copy, Debug, PartialEq, Eq, Structural)]
pub enum Mode {
    /// Build an image from a directory tree.
    Create,
    /// Print the directory tree held in an image.
    List,
    /// Extract the contents of an image to a directory.
    Extract,
}

/// A command line after parsing: the three mode flags, the optional
/// destination directory of `-d`, and the two positional paths.
#[derive(Clone, Debug)]
pub struct ExtractXisoArgs {
    /// `-x`: extract; the default mode when no flag is given.
    pub extract: bool,
    /// `-c`: create an image from a directory.
    pub create: bool,
    /// `-l`: list the files held in an image.
    pub list: bool,
    /// `-d <directory>`: where an image is extracted to.
    pub directory: Option<String>,
    /// Source directory (create) or image file (extract, list).
    pub input_path: String,
    /// Image file to write (create); not consulted otherwise.
    pub output_path: Option<String>,
}

/// Why a set of parsed values does not form a valid command line.
#[derive(Clone, Copy, Debug, PartialEq, Eq, Structural)]
pub enum ArgError {
    /// Two or more of `-c`, `-l`, `-x` were given together.
    ConflictingModes,
}

/// Number of mode flags that are set.
pub open spec fn mode_flag_count(extract: bool, create: bool, list: bool) -> nat {
    (if extract { 1nat } else { 0nat }) + (if create { 1nat } else { 0nat }) + (if list {
        1nat
    } else {
        0nat
    })
}

/// The mode that a command line selects: create before list, and extract
/// when neither is given.
pub open spec fn mode_of(create: bool, list: bool) -> Mode {
    if create {
        Mode::Create
    } else if list {
        Mode::List
    } else {
        Mode::Extract
    }
}

impl ExtractXisoArgs {
    /// The mode flags form a mutually exclusive group: at most one is set.
    pub open spec fn wf(&self) -> bool {
        mode_flag_count(self.extract, self.create, self.list) <= 1
    }

    /// The operation that this command line selects.
    pub open spec fn spec_mode(&self) -> Mode {
        mode_of(self.create, self.list)
    }

    /// Assembles a command line from parsed values, rejecting any that set
    /// more than one of the mode flags.
    pub fn new(
        extract: bool,
        create: bool,
        list: bool,
        directory: Option<String>,
        input_path: String,
        output_path: Option<String>,
    ) -> (r: Result<ExtractXisoArgs, ArgError>)
        ensures
            mode_flag_count(extract, create, list) <= 1 <==> r.is_ok(),
            r.is_err() ==> r == Err::<ExtractXisoArgs, ArgError>(ArgError::ConflictingModes),
            r.is_ok() ==> ({
                let a = r.unwrap();
                &&& a.wf()
                &&& a.extract == extract
                &&& a.create == create
                &&& a.list == list
                &&& a.directory == directory
                &&& a.input_path == input_path
                &&& a.output_path == output_path
            }),
    {
        if (extract && create) || (extract && list) || (create && list) {
            Err(ArgError::ConflictingModes)
        } else {
            Ok(ExtractXisoArgs { extract, create, list, directory, input_path, output_path })
        }
    }

    /// The operation that this command line selects.
    pub fn mode(&self) -> (m: Mode)
        ensures
            m == self.spec_mode(),
    {
        if self.create {
            Mode::Create
        } else if self.list {
            Mode::List
        } else {
            Mode::Extract
        }
    }
}

} // verus!
