//! Header descriptors and the descriptor of one generated file.

use vstd::prelude::*;
use vstd::string::StringExecFns;

verus! {

/// A header that a generated file depends on. `lib_link` tells a system
/// header, included in angle brackets, from a local one, included in quotes.
#[derive(Debug)]
pub struct CLibrary {
    pub lib_name: String,
    pub lib_link: bool,
}

impl Clone for CLibrary {
    fn clone(&self) -> (copy: Self)
        ensures
            copy == *self,
    {
        CLibrary { lib_name: self.lib_name.clone(), lib_link: self.lib_link }
    }
}

impl CLibrary {
    /// The system header `stdio.h`.
    pub fn stdio() -> (library: Self)
        ensures
            library.lib_name@ == "stdio.h"@,
            library.lib_link,
    {
        Self { lib_name: String::from_str("stdio.h"), lib_link: true }
    }

    /// The system header `stdlib.h`.
    pub fn stdlib() -> (library: Self)
        ensures
            library.lib_name@ == "stdlib.h"@,
            library.lib_link,
    {
        Self { lib_name: String::from_str("stdlib.h"), lib_link: true }
    }
}

/// One generated file: its name, the directory it is written to, and the
/// headers it includes, in the order they were added and with repetitions.
#[derive(Debug)]
pub struct CFile {
    pub file_name: String,
    pub file_path: String,
    pub headers: Vec<CLibrary>,
}

impl Clone for CFile {
    fn clone(&self) -> (copy: Self)
        ensures
            copy.file_name == self.file_name,
            copy.file_path == self.file_path,
            copy.headers@ == self.headers@,
    {
        let headers = self.headers.clone();
        assert(headers@ =~= self.headers@);
        CFile {
            file_name: self.file_name.clone(),
            file_path: self.file_path.clone(),
            headers,
        }
    }
}

impl CFile {
    pub fn new(file_name: String, file_path: String, headers: Vec<CLibrary>) -> (file: Self)
        ensures
            file.file_name == file_name,
            file.file_path == file_path,
            file.headers == headers,
    {
        Self { file_name, file_path, headers }
    }

    /// Where the file lies: directory, a slash, name.
    pub open spec fn path_text(self) -> Seq<char> {
        self.file_path@ + "/"@ + self.file_name@
    }

    /// The path of the file: directory, a slash, name.
    pub fn get_file_path(&self) -> (path: String)
        ensures
            path@ == self.path_text(),
    {
        let mut path = self.file_path.clone();
        path.append("/");
        path.append(self.file_name.as_str());
        path
    }
}

} // verus!
