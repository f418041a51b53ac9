use vstd::prelude::*;
use vstd::string::*;
use crate::text::{opt_text, push_text, same_text, texts, trim_spec, trim_text};
use crate::tool::Tool;

verus! {

/// The options of a request that shape each tool's command line.
pub struct ProcessOptions {
    /// Ask the tool to use peak area data.
    pub use_area_data: bool,
    /// The name of the standard sample, if one was given.
    pub std_sample_name: Option<String>,
    /// Ask the tool to optimize its text encoding for Windows.
    pub windows_optimization: Option<bool>,
    /// The language of the user interface.
    pub language: String,
}

/// The options as plain values.
pub struct OptionsView {
    pub use_area_data: bool,
    pub std_sample_name: Option<Seq<char>>,
    pub windows_optimization: Option<bool>,
    pub language: Seq<char>,
}

impl View for ProcessOptions {
    type V = OptionsView;

    open spec fn view(&self) -> OptionsView {
        OptionsView {
            use_area_data: self.use_area_data,
            std_sample_name: opt_text(self.std_sample_name),
            windows_optimization: self.windows_optimization,
            language: self.language@,
        }
    }
}

/// The peak area flag, when it is asked for and the tool takes it.
pub open spec fn area_args(tool: Tool, o: OptionsView) -> Seq<Seq<char>> {
    if o.use_area_data && tool.accepts_area_spec() {
        seq![tool.area_flag_spec()]
    } else {
        Seq::empty()
    }
}

/// The standard sample flag and the trimmed name, when the tool takes one and
/// the name is not blank.
pub open spec fn std_sample_args(tool: Tool, o: OptionsView) -> Seq<Seq<char>> {
    match o.std_sample_name {
        Some(name) => if tool.std_sample_spec() && trim_spec(name).len() > 0 {
            seq![tool.std_sample_flag_spec(), trim_spec(name)]
        } else {
            Seq::empty()
        },
        None => Seq::empty(),
    }
}

/// The encoding arguments, when they are asked for and the tool takes them.
pub open spec fn encoding_args(tool: Tool, o: OptionsView) -> Seq<Seq<char>> {
    if tool.windows_optimization_spec() && o.windows_optimization == Some(true) {
        tool.encoding_args_spec()
    } else {
        Seq::empty()
    }
}

/// What SMNFiler alone takes: the output directory (the input file's parent)
/// and, for a Chinese interface, the language flag.
pub open spec fn extra_args(tool: Tool, o: OptionsView, parent: Option<Seq<char>>) -> Seq<
    Seq<char>,
> {
    if tool is SMNFiler {
        let out = match parent {
            Some(p) => seq!["-o"@, p],
            None => Seq::empty(),
        };
        let lang = if o.language == "zh"@ {
            seq!["-l"@]
        } else {
            Seq::empty()
        };
        out + lang
    } else {
        Seq::empty()
    }
}

/// The command line for running `tool` on `file`, whose parent directory is
/// `parent`.
pub open spec fn command_args(tool: Tool, o: OptionsView, file: Seq<char>, parent: Option<Seq<char>>) -> Seq<
    Seq<char>,
> {
    seq!["-i"@, file] + area_args(tool, o) + std_sample_args(tool, o) + encoding_args(tool, o)
        + extra_args(tool, o, parent)
}

/// Builds the command line for running `tool` on `file_path`, whose parent
/// directory is `parent`.
pub fn build_args(tool: Tool, options: &ProcessOptions, file_path: &str, parent: Option<&str>) -> (r:
    Vec<String>)
    ensures
        texts(r@) == command_args(
            tool,
            options@,
            file_path@,
            match parent {
                Some(p) => Some(p@),
                None => None,
            },
        ),
{
    let ghost o = options@;
    let ghost par = match parent {
        Some(p) => Some(p@),
        None => None::<Seq<char>>,
    };
    let mut args: Vec<String> = Vec::new();
    push_text(&mut args, "-i");
    push_text(&mut args, file_path);
    assert(texts(args@) =~= seq!["-i"@, file_path@]);
    let ghost base = texts(args@);

    if options.use_area_data && tool.accepts_area_data() {
        push_text(&mut args, tool.area_flag());
    }
    assert(texts(args@) =~= base + area_args(tool, o));
    let ghost with_area = texts(args@);

    if tool.supports_std_sample() {
        match &options.std_sample_name {
            Some(name) => {
                let trimmed = trim_text(name.as_str());
                if trimmed.unicode_len() > 0 {
                    push_text(&mut args, tool.std_sample_flag());
                    push_text(&mut args, trimmed);
                }
            },
            None => {},
        }
    }
    assert(texts(args@) =~= with_area + std_sample_args(tool, o));
    let ghost with_std = texts(args@);

    if tool.supports_windows_optimization() {
        let on = match options.windows_optimization {
            Some(b) => b,
            None => false,
        };
        if on {
            match tool {
                Tool::SMNFiler => {
                    push_text(&mut args, "-e");
                    push_text(&mut args, "GBK");
                },
                _ => {
                    push_text(&mut args, "-GBK");
                },
            }
        }
    }
    assert(texts(args@) =~= with_std + encoding_args(tool, o));
    let ghost with_enc = texts(args@);

    if let Tool::SMNFiler = tool {
        match parent {
            Some(p) => {
                push_text(&mut args, "-o");
                push_text(&mut args, p);
            },
            None => {},
        }
        if same_text(options.language.as_str(), "zh") {
            push_text(&mut args, "-l");
        }
    }
    assert(texts(args@) =~= with_enc + extra_args(tool, o, par));
    args
}

/// `o` with another standard sample name.
pub open spec fn with_std_sample_name(o: OptionsView, name: Option<Seq<char>>) -> OptionsView {
    OptionsView {
        use_area_data: o.use_area_data,
        std_sample_name: name,
        windows_optimization: o.windows_optimization,
        language: o.language,
    }
}

/// `o` with another choice about peak area data.
pub open spec fn with_area_data(o: OptionsView, use_area_data: bool) -> OptionsView {
    OptionsView {
        use_area_data,
        std_sample_name: o.std_sample_name,
        windows_optimization: o.windows_optimization,
        language: o.language,
    }
}

/// `o` with another choice about the encoding optimization.
pub open spec fn with_windows_optimization(o: OptionsView, on: Option<bool>) -> OptionsView {
    OptionsView {
        use_area_data: o.use_area_data,
        std_sample_name: o.std_sample_name,
        windows_optimization: on,
        language: o.language,
    }
}

/// Building a command line depends on its inputs alone: two command lines
/// built from the same tool, options, file and parent directory are the same.
pub proof fn lemma_args_deterministic(
    tool: Tool,
    o: OptionsView,
    file: Seq<char>,
    parent: Option<Seq<char>>,
    a: Seq<String>,
    b: Seq<String>,
)
    requires
        texts(a) == command_args(tool, o, file, parent),
        texts(b) == command_args(tool, o, file, parent),
    ensures
        texts(a) == texts(b),
{
}

/// A standard sample name that is blank once trimmed is treated as no name:
/// it adds no argument.
pub proof fn lemma_blank_std_sample_name_ignored(
    tool: Tool,
    o: OptionsView,
    file: Seq<char>,
    parent: Option<Seq<char>>,
)
    requires
        o.std_sample_name matches Some(name) && trim_spec(name).len() == 0,
    ensures
        std_sample_args(tool, o) == Seq::<Seq<char>>::empty(),
        command_args(tool, o, file, parent) == command_args(
            tool,
            with_std_sample_name(o, None),
            file,
            parent,
        ),
{
}

/// An option that the tool does not accept has no effect on its command line,
/// whatever its value.
pub proof fn lemma_unsupported_option_ignored(
    tool: Tool,
    o: OptionsView,
    file: Seq<char>,
    parent: Option<Seq<char>>,
    use_area_data: bool,
    name: Option<Seq<char>>,
    on: Option<bool>,
)
    ensures
        !tool.accepts_area_spec() ==> command_args(tool, with_area_data(o, use_area_data), file, parent)
            == command_args(tool, o, file, parent),
        !tool.std_sample_spec() ==> command_args(tool, with_std_sample_name(o, name), file, parent)
            == command_args(tool, o, file, parent),
        !tool.windows_optimization_spec() ==> command_args(
            tool,
            with_windows_optimization(o, on),
            file,
            parent,
        ) == command_args(tool, o, file, parent),
{
}

} // verus!
