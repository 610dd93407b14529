//! The configurations of the compiler, the documentation generator and the
//! formatter, and their errors. Paths are held as their text.
use vstd::prelude::*;

verus! {

/// A version of a target language.
#[derive(Debug)]
pub struct Version {
    major: u16,
    minor: u16,
    patch: u16,
}

/// A language that programs are compiled to.
#[derive(Debug)]
pub enum ExternalTarget {
    Python(Version),
}

/// Targets that debug the compiler, but for [`InternalTarget::Typed`],
/// which checks the code.
#[derive(Debug)]
pub enum InternalTarget {
    /// Writes the core code to a file.
    CoreOutput(Version),
    /// Runs all up to the core transformation, and produces nothing.
    Core(Version),
    /// Just checks the types of the sugared tree.
    Typed(Version),
    /// Runs all the way up to the optimizer, and produces nothing.
    Debug(Version),
}

/// A target of a compilation.
#[derive(Debug)]
pub enum Target {
    Internal(InternalTarget),
    External(ExternalTarget),
}

/// How to compile a library: files or directories, and where to put them.
#[derive(Debug)]
pub struct LibraryConfiguration {
    pub paths_to_compile: Vec<String>,
    pub output_folder: String,
}

/// How to compile an executable.
#[derive(Debug)]
pub struct ExecutableConfiguration {
    pub path_to_file: String,
    pub file_output_name: Option<String>,
    pub output_folder: String,
}

/// Whether a library or an executable is compiled.
#[derive(Debug)]
pub enum CompilationKind {
    Library(LibraryConfiguration),
    Executable(ExecutableConfiguration),
}

/// Where the dependencies are: those that a package manager fetches, and
/// the local ones.
#[derive(Debug)]
pub struct DependencyPaths {
    external: Vec<String>,
    local: Vec<String>,
}

/// The configuration of a compilation.
#[derive(Debug)]
pub struct CompilerConfiguration {
    /// A library or an executable.
    pub kind: CompilationKind,
    /// The targets; none means that nothing is done.
    pub targets: Vec<Target>,
    pub dependency_paths: DependencyPaths,
}

/// The errors of a compilation; there are none yet.
pub struct CompilerError;

/// The configuration of the documentation generator.
#[derive(Debug)]
pub struct DocumentationConfiguration {
    pub output_folder: String,
}

/// The errors of the documentation generator; there are none yet.
pub struct DocumentationError;

/// Where the formatter writes.
#[derive(Debug)]
pub enum FormatterOutput {
    ToFolder(String),
    ToStdout,
    InPace,
}

/// The configuration of the formatter.
#[derive(Debug)]
pub struct FormatterConfiguration {
    pub line_width: u16,
    pub indentation_length: u8,
    pub output_place: FormatterOutput,
}

/// The errors of the formatter; there are none yet.
pub struct FormatterError;

/// How the formatter lays out a syntax tree.
#[derive(Debug, Clone, Copy, PartialEq, Eq, Structural)]
pub struct PrettyCSTConfiguration {
    pub indentation_deep: u16,
    pub leading_commas: bool,
    /// Trailing commas are always kept; when this is false the formatter
    /// adds none where there was none.
    pub add_trailing_separator: bool,
    /// Moves a documentation comment after an item to before it.
    pub move_documentantion_before_object: bool,
    pub indent_comment_blocks: bool,
    /// The distance between different sections of comments, unless they
    /// are compacted.
    pub separe_comments_by: u8,
    /// Merges comments into a single block, and documentation into another.
    pub compact_comments: bool,
}

impl Default for PrettyCSTConfiguration {
    fn default() -> (r: Self)
        ensures
            r == (PrettyCSTConfiguration {
                indentation_deep: 2,
                leading_commas: true,
                add_trailing_separator: true,
                move_documentantion_before_object: true,
                indent_comment_blocks: true,
                separe_comments_by: 1,
                compact_comments: true,
            }),
    {
        PrettyCSTConfiguration {
            indentation_deep: 2,
            leading_commas: true,
            add_trailing_separator: true,
            move_documentantion_before_object: true,
            indent_comment_blocks: true,
            separe_comments_by: 1,
            compact_comments: true,
        }
    }
}

} // verus!
