//! The files that the operator can load.

use vstd::prelude::*;

verus! {

/// What a file is read for.
#[derive(Debug, Clone, Copy, PartialEq, Eq, Structural)]
pub enum ReadFileType {
    PatchList,
}

impl ReadFileType {
    /// The title of the dialog in which the file is picked.
    pub fn title(&self) -> (r: &'static str)
        ensures
            r@ == "Patch list file"@,
    {
        match self {
            ReadFileType::PatchList => "Patch list file",
        }
    }

    /// The kinds of file that the dialog offers: each a name and the
    /// extensions that belong to it.
    pub fn filters(&self) -> (r: Vec<(&'static str, Vec<&'static str>)>)
        ensures
            r@.len() == 2,
            r@[0].0@ == "CSV"@,
            r@[0].1@.len() == 1,
            r@[0].1@[0]@ == "csv"@,
            r@[1].0@ == "Text"@,
            r@[1].1@.len() == 1,
            r@[1].1@[0]@ == "txt"@,
    {
        match self {
            ReadFileType::PatchList => {
                let mut csv: Vec<&'static str> = Vec::new();
                csv.push("csv");
                let mut txt: Vec<&'static str> = Vec::new();
                txt.push("txt");
                let mut r: Vec<(&'static str, Vec<&'static str>)> = Vec::new();
                r.push(("CSV", csv));
                r.push(("Text", txt));
                r
            },
        }
    }
}

} // verus!
