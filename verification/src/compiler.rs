//! The build description handed to a system C compiler: the generated files,
//! the local headers they depend on, and the command line that compiles
//! them.

use vstd::prelude::*;
use vstd::string::StringExecFns;
use crate::output::{CFile, CLibrary};

verus! {

/// The C compilers that a build can name.
#[derive(Debug, Clone, Copy, PartialEq, Eq, Structural)]
pub enum Compilers {
    Gcc,
    Clang,
    Gpp,
}

/// The operating system that a build runs on.
#[derive(Debug, Clone, Copy, PartialEq, Eq, Structural)]
pub enum OperatingSystem {
    BestMat,
    MacOS,
    Linux,
    Windows,
    Unknown,
}

impl OperatingSystem {
    /// The operating system that the platform name stands for: `macos`,
    /// `linux` and `windows` are known, every other name is unknown.
    pub open spec fn named(name: Seq<char>) -> OperatingSystem {
        if name == "macos"@ {
            OperatingSystem::MacOS
        } else if name == "linux"@ {
            OperatingSystem::Linux
        } else if name == "windows"@ {
            OperatingSystem::Windows
        } else {
            OperatingSystem::Unknown
        }
    }

    /// Tells the operating system from its platform name.
    pub fn from_name(name: &str) -> (os: Self)
        ensures
            os == Self::named(name@),
    {
        let name = String::from_str(name);
        if name == String::from_str("macos") {
            OperatingSystem::MacOS
        } else if name == String::from_str("linux") {
            OperatingSystem::Linux
        } else if name == String::from_str("windows") {
            OperatingSystem::Windows
        } else {
            OperatingSystem::Unknown
        }
    }
}

/// A program to run and the arguments to run it with.
#[derive(Debug)]
pub struct CompilerCommand {
    pub program: String,
    pub arguments: Vec<String>,
}

/// The name of the program that a compiler is run by; `None` for a compiler
/// that is not supported.
pub open spec fn compiler_program(compiler: Compilers) -> Option<Seq<char>> {
    match compiler {
        Compilers::Gcc => Some("gcc"@),
        Compilers::Clang => Some("clang"@),
        Compilers::Gpp => None,
    }
}

/// The paths of the first `count` files, joined by commas.
pub open spec fn paths_text(files: Seq<CFile>, count: nat) -> Seq<char>
    decreases count,
{
    if count == 0 || count > files.len() {
        Seq::empty()
    } else if count == 1 {
        files[0].path_text()
    } else {
        paths_text(files, (count - 1) as nat) + ","@ + files[count - 1].path_text()
    }
}

/// The arguments of a build: the files, the name of the executable, full
/// optimization for the machine at hand, and link-time optimization.
pub open spec fn command_arguments(files: Seq<CFile>, executable_name: Seq<char>) -> Seq<
    Seq<char>,
> {
    seq![
        paths_text(files, files.len()),
        "-o"@,
        executable_name,
        "-O3"@,
        "-march=native"@,
        "-flto"@,
    ]
}

/// Whether a header is a local one, which a build has to be told of.
pub open spec fn is_local(library: CLibrary) -> bool {
    !library.lib_link
}

/// A build: the files to compile, the local headers they depend on, the
/// compiler and the operating system.
#[derive(Debug)]
pub struct JasmineBuilder {
    pub files: Vec<CFile>,
    pub headers: Vec<CLibrary>,
    pub compiler: Compilers,
    pub os: OperatingSystem,
}

impl JasmineBuilder {
    /// An empty build for `compiler` on the platform called `os_name`.
    pub fn new(compiler: Compilers, os_name: &str) -> (builder: Self)
        ensures
            builder.files@ == Seq::<CFile>::empty(),
            builder.headers@ == Seq::<CLibrary>::empty(),
            builder.compiler == compiler,
            builder.os == OperatingSystem::named(os_name@),
    {
        Self {
            files: Vec::new(),
            headers: Vec::new(),
            compiler,
            os: OperatingSystem::from_name(os_name),
        }
    }

    /// Adds a generated file to the build, and its local headers, in their
    /// order, to the headers of the build.
    pub fn add_file(&mut self, file: CFile)
        ensures
            final(self).files@ == old(self).files@.push(file),
            final(self).headers@ == old(self).headers@ + file.headers@.filter(
                |library: CLibrary| is_local(library),
            ),
            final(self).compiler == old(self).compiler,
            final(self).os == old(self).os,
    {
        let ghost local = |library: CLibrary| is_local(library);
        let mut i: usize = 0;
        proof {
            reveal(Seq::filter);
            assert(file.headers@.take(0).filter(local) =~= Seq::<CLibrary>::empty());
        }
        while i < file.headers.len()
            invariant
                i <= file.headers.len(),
                local == |library: CLibrary| is_local(library),
                self.headers@ == old(self).headers@ + file.headers@.take(i as int).filter(local),
                self.files == old(self).files,
                self.compiler == old(self).compiler,
                self.os == old(self).os,
            decreases file.headers.len() - i,
        {
            proof {
                reveal(Seq::filter);
                let next = file.headers@.take(i + 1);
                assert(next.drop_last() =~= file.headers@.take(i as int));
                assert(next.last() == file.headers@[i as int]);
            }
            if !file.headers[i].lib_link {
                self.headers.push(file.headers[i].clone());
            }
            i = i + 1;
        }
        proof {
            assert(file.headers@.take(file.headers@.len() as int) =~= file.headers@);
        }
        self.files.push(file);
    }

    /// The paths of the files of the build, joined by commas.
    fn file_arguments(&self) -> (joined: String)
        ensures
            joined@ == paths_text(self.files@, self.files@.len()),
    {
        let mut joined = String::new();
        let mut i: usize = 0;
        while i < self.files.len()
            invariant
                i <= self.files.len(),
                joined@ == paths_text(self.files@, i as nat),
            decreases self.files.len() - i,
        {
            let path = self.files[i].get_file_path();
            if i > 0 {
                joined.append(",");
            }
            joined.append(path.as_str());
            i = i + 1;
        }
        joined
    }

    /// The command that builds the executable `executable_name` from the
    /// files of the build; `None` where the compiler is not supported.
    pub fn compiler_command(&self, executable_name: &str) -> (command: Option<CompilerCommand>)
        ensures
            (match compiler_program(self.compiler) {
                Some(program) => command matches Some(built) && built.program@ == program
                    && built.arguments@.map_values(|argument: String| argument@)
                    == command_arguments(self.files@, executable_name@),
                None => command is None,
            }),
    {
        let program = match self.compiler {
            Compilers::Gcc => String::from_str("gcc"),
            Compilers::Clang => String::from_str("clang"),
            Compilers::Gpp => {
                return None;
            },
        };
        let mut arguments: Vec<String> = Vec::new();
        arguments.push(self.file_arguments());
        arguments.push(String::from_str("-o"));
        arguments.push(String::from_str(executable_name));
        arguments.push(String::from_str("-O3"));
        arguments.push(String::from_str("-march=native"));
        arguments.push(String::from_str("-flto"));
        assert(arguments@.map_values(|argument: String| argument@) =~= command_arguments(
            self.files@,
            executable_name@,
        ));
        Some(CompilerCommand { program, arguments })
    }
}

} // verus!
