use vstd::prelude::*;
use vstd::string::*;
use crate::error::ProcessError;
use crate::text::same_text;

verus! {

/// The analysis tools that can be run.
#[derive(Clone, Copy, Debug, PartialEq, Eq, Structural)]
pub enum Tool {
    AneuFiler,
    Aneu23,
    SMNFiler,
    SHCarrier,
    UPDFiler,
}

/// The tool that a name selects, if any.
pub open spec fn tool_named(s: Seq<char>) -> Option<Tool> {
    if s == "AneuFiler"@ {
        Some(Tool::AneuFiler)
    } else if s == "Aneu23"@ {
        Some(Tool::Aneu23)
    } else if s == "SMNFiler"@ {
        Some(Tool::SMNFiler)
    } else if s == "SHCarrier"@ {
        Some(Tool::SHCarrier)
    } else if s == "UPDFiler"@ {
        Some(Tool::UPDFiler)
    } else {
        None
    }
}

impl Tool {
    /// The file name of the tool's executable.
    pub open spec fn exe_name_spec(self) -> Seq<char> {
        match self {
            Tool::AneuFiler => "AneuFiler.exe"@,
            Tool::Aneu23 => "Aneu23.exe"@,
            Tool::SMNFiler => "SMNFiler.exe"@,
            Tool::SHCarrier => "SHCarrier.exe"@,
            Tool::UPDFiler => "UPDFiler.exe"@,
        }
    }

    /// Whether the tool takes the flag that asks for peak area data.
    pub open spec fn accepts_area_spec(self) -> bool {
        !(self is UPDFiler)
    }

    /// Whether the tool takes a standard sample name.
    pub open spec fn std_sample_spec(self) -> bool {
        self is Aneu23 || self is SMNFiler || self is SHCarrier
    }

    /// Whether the tool takes the text encoding optimization for Windows.
    pub open spec fn windows_optimization_spec(self) -> bool {
        self is SMNFiler || self is SHCarrier || self is UPDFiler
    }

    /// The tool's spelling of the peak area flag.
    pub open spec fn area_flag_spec(self) -> Seq<char> {
        if self is SMNFiler {
            "-a"@
        } else {
            "-Area"@
        }
    }

    /// The tool's spelling of the standard sample flag.
    pub open spec fn std_sample_flag_spec(self) -> Seq<char> {
        if self is SMNFiler {
            "-c"@
        } else {
            "-STD"@
        }
    }

    /// The arguments that turn the encoding optimization on.
    pub open spec fn encoding_args_spec(self) -> Seq<Seq<char>> {
        if self is SMNFiler {
            seq!["-e"@, "GBK"@]
        } else {
            seq!["-GBK"@]
        }
    }

    /// Parses a tool name; any other name is an `UnknownTool` error that
    /// carries it.
    pub fn from_str(s: &str) -> (r: Result<Tool, ProcessError>)
        ensures
            tool_named(s@) matches Some(t) ==> r == Ok::<Tool, ProcessError>(t),
            tool_named(s@) is None ==> (r matches Err(ProcessError::UnknownTool { tool }) && tool@
                == s@),
    {
        if same_text(s, "AneuFiler") {
            Ok(Tool::AneuFiler)
        } else if same_text(s, "Aneu23") {
            Ok(Tool::Aneu23)
        } else if same_text(s, "SMNFiler") {
            Ok(Tool::SMNFiler)
        } else if same_text(s, "SHCarrier") {
            Ok(Tool::SHCarrier)
        } else if same_text(s, "UPDFiler") {
            Ok(Tool::UPDFiler)
        } else {
            Err(ProcessError::UnknownTool { tool: String::from_str(s) })
        }
    }

    /// The file name of the tool's executable.
    pub fn exe_name(&self) -> (r: &'static str)
        ensures
            r@ == self.exe_name_spec(),
    {
        match self {
            Tool::AneuFiler => "AneuFiler.exe",
            Tool::Aneu23 => "Aneu23.exe",
            Tool::SMNFiler => "SMNFiler.exe",
            Tool::SHCarrier => "SHCarrier.exe",
            Tool::UPDFiler => "UPDFiler.exe",
        }
    }

    /// Whether the tool takes the flag that asks for peak area data.
    pub fn accepts_area_data(&self) -> (r: bool)
        ensures
            r == self.accepts_area_spec(),
    {
        !matches!(self, Tool::UPDFiler)
    }

    /// Whether the tool takes a standard sample name.
    pub fn supports_std_sample(&self) -> (r: bool)
        ensures
            r == self.std_sample_spec(),
    {
        matches!(self, Tool::Aneu23 | Tool::SMNFiler | Tool::SHCarrier)
    }

    /// Whether the tool takes the text encoding optimization for Windows.
    pub fn supports_windows_optimization(&self) -> (r: bool)
        ensures
            r == self.windows_optimization_spec(),
    {
        matches!(self, Tool::SMNFiler | Tool::SHCarrier | Tool::UPDFiler)
    }

    /// The tool's spelling of the peak area flag.
    pub fn area_flag(&self) -> (r: &'static str)
        ensures
            r@ == self.area_flag_spec(),
    {
        match self {
            Tool::SMNFiler => "-a",
            _ => "-Area",
        }
    }

    /// The tool's spelling of the standard sample flag.
    pub fn std_sample_flag(&self) -> (r: &'static str)
        ensures
            r@ == self.std_sample_flag_spec(),
    {
        match self {
            Tool::SMNFiler => "-c",
            _ => "-STD",
        }
    }
}

} // verus!
