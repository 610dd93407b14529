//! The options of the command line program, and the settings that they give.
use vstd::prelude::*;
use crate::configuration::PrettyCSTConfiguration;
use crate::report::{ReportTarget, ReportUserKind};

verus! {

/// How much the program logs.
#[derive(Copy, Clone, Debug, PartialEq, Eq, Structural, PartialOrd, Ord, Hash)]
pub enum DebugLevel {
    /// Only errors.
    Error,
    /// Errors and information.
    Info,
    /// Debugging, information and errors.
    Debug,
    /// Everything.
    Trace,
}

/// How the output is coloured.
#[derive(Copy, Clone, Debug, PartialEq, Eq, Structural, PartialOrd, Ord, Hash)]
pub enum AvailableRenderers {
    /// Plain text: no colour, bold, italic or anything that is not text.
    PlainText,
    /// Terminals with the 4 bits colour scheme.
    AnsiC4,
    /// Terminals with the 8 bits colour scheme.
    AnsiC8,
    /// Terminals with the 24 bits (true colour) scheme.
    AnsiC24,
}

/// The options of the formatter and of the reports.
#[derive(Clone, Debug)]
pub struct FormatterConfiguration {
    /// The width of an indentation.
    pub indentation_deep: u16,
    /// Puts delimiters like commas at the start of a line.
    pub leading_commas: bool,
    /// Puts a delimiter at the end of every structure that allows one.
    pub add_trailing_separator: bool,
    /// Moves the documentation in front of an item above it.
    pub move_documentantion_before_object: bool,
    /// The number of lines between top level items.
    pub separe_by: u8,
    /// Merges comments of the same kind that follow each other.
    pub compact_comments: bool,
    /// Reports in a form that a program can read, without colours.
    pub use_machine_representation: bool,
    /// Reports for advanced users.
    pub use_advanced_errors: bool,
    /// How the output is coloured.
    pub renderer: AvailableRenderers,
    /// The number of columns of the output.
    pub column_width: usize,
}

/// What the program does.
#[derive(Debug)]
pub enum Commands {
    /// Compiles a file, into `output`.
    Compile { path: String, output: Option<String> },
    /// Formats a file, into `output` or else the standard output.
    Format { path: String, output: Option<String> },
    /// Starts an interactive loop, with a prompt.
    REPL { prompt: String },
}

/// The arguments of the program.
#[derive(Debug)]
pub struct Arguments {
    pub command: Commands,
    /// Shows the arguments and stops.
    pub show_arguments: bool,
    pub debug_level: DebugLevel,
    pub formatter_configuration: FormatterConfiguration,
}

/// The settings that the options give to the program.
#[derive(Clone, Copy, Debug, PartialEq, Eq, Structural)]
pub struct GlobalOptions {
    pub column_width: usize,
    /// How the output is coloured: plain for machines.
    pub renderer: AvailableRenderers,
    pub pretty_configuration: PrettyCSTConfiguration,
    pub target: ReportTarget,
}

/// The settings that the options give: the layout of the formatter, the
/// reader of the reports (a machine or a human, advanced or new), and the
/// colours, none for a machine.
pub open spec fn global_options(value: FormatterConfiguration) -> GlobalOptions {
    let user = if value.use_advanced_errors {
        ReportUserKind::Advanced
    } else {
        ReportUserKind::New
    };
    GlobalOptions {
        column_width: value.column_width,
        renderer: if value.use_machine_representation {
            AvailableRenderers::PlainText
        } else {
            value.renderer
        },
        pretty_configuration: PrettyCSTConfiguration {
            indentation_deep: value.indentation_deep,
            leading_commas: value.leading_commas,
            add_trailing_separator: value.add_trailing_separator,
            move_documentantion_before_object: value.move_documentantion_before_object,
            indent_comment_blocks: false,
            separe_comments_by: value.separe_by,
            compact_comments: value.compact_comments,
        },
        target: if value.use_machine_representation {
            ReportTarget::Machine(user)
        } else {
            ReportTarget::Human(user)
        },
    }
}

impl From<FormatterConfiguration> for GlobalOptions {
    fn from(value: FormatterConfiguration) -> (r: GlobalOptions) {
        let pretty_configuration = PrettyCSTConfiguration {
            indentation_deep: value.indentation_deep,
            leading_commas: value.leading_commas,
            add_trailing_separator: value.add_trailing_separator,
            move_documentantion_before_object: value.move_documentantion_before_object,
            indent_comment_blocks: false,
            separe_comments_by: value.separe_by,
            compact_comments: value.compact_comments,
        };
        let mut renderer = value.renderer;
        let userkind = if value.use_advanced_errors {
            ReportUserKind::Advanced
        } else {
            ReportUserKind::New
        };
        let target = if value.use_machine_representation {
            renderer = AvailableRenderers::PlainText;
            ReportTarget::Machine(userkind)
        } else {
            ReportTarget::Human(userkind)
        };
        GlobalOptions { column_width: value.column_width, renderer, pretty_configuration, target }
    }
}

impl vstd::std_specs::convert::FromSpecImpl<FormatterConfiguration> for GlobalOptions {
    open spec fn obeys_from_spec() -> bool {
        true
    }

    open spec fn from_spec(value: FormatterConfiguration) -> GlobalOptions {
        global_options(value)
    }
}


/// Every formatter option reaches the settings unchanged: the width of a
/// column, the indentation, the commas, the trailing separators, where the
/// documentation goes, the distance between comments and their compaction;
/// blocks of comments are not indented. Machines get plain text, and reports
/// for advanced users when asked.
pub proof fn lemma_options_carried(value: FormatterConfiguration)
    ensures
        global_options(value).column_width == value.column_width,
        global_options(value).pretty_configuration.indentation_deep == value.indentation_deep,
        global_options(value).pretty_configuration.leading_commas == value.leading_commas,
        global_options(value).pretty_configuration.add_trailing_separator == value.add_trailing_separator,
        global_options(value).pretty_configuration.move_documentantion_before_object
            == value.move_documentantion_before_object,
        global_options(value).pretty_configuration.separe_comments_by == value.separe_by,
        global_options(value).pretty_configuration.compact_comments == value.compact_comments,
        !global_options(value).pretty_configuration.indent_comment_blocks,
        value.use_machine_representation ==> global_options(value).renderer == AvailableRenderers::PlainText
            && global_options(value).target is Machine,
        !value.use_machine_representation ==> global_options(value).renderer == value.renderer
            && global_options(value).target is Human,
        (global_options(value).target matches ReportTarget::Machine(u) && u == ReportUserKind::Advanced)
            || (global_options(value).target matches ReportTarget::Human(u) && u
            == ReportUserKind::Advanced) <==> value.use_advanced_errors,
{
}

} // verus!
