//! The options of a compilation and the compiler arguments they render to.
use vstd::prelude::*;
use vstd::string::StringExecFns;

verus! {

/// The text of the program that is compiled.
pub type Source = String;

/// The optimization level handed to the compiler.
#[derive(Clone, Copy, Debug, PartialEq, Eq, Structural)]
pub enum Profile {
    O0,
    O1,
    O2,
    O3,
}

/// The stack size of the produced module: the compiler's default, or a byte count.
#[derive(Clone, Copy, Debug, PartialEq, Eq, Structural)]
pub enum StackSize {
    Unspecified,
    Configured(u32),
}

/// Whether debug information is emitted.
#[derive(Clone, Copy, Debug, PartialEq, Eq, Structural)]
pub enum Debugging {
    Enabled,
    Disabled,
}

/// The name of the source file handed to the compiler: a default one, or a
/// name of the caller's choosing.
#[derive(Clone, Debug)]
pub enum Filename {
    Unspecified,
    Configured(String),
}

impl View for Filename {
    /// `None` for the default name, the chosen name otherwise.
    type V = Option<Seq<char>>;

    open spec fn view(&self) -> Option<Seq<char>> {
        match self {
            Filename::Unspecified => None,
            Filename::Configured(name) => Some(name@),
        }
    }
}

/// What a `Configuration` holds, as mathematical values.
pub struct ConfigurationModel {
    pub profile: Profile,
    pub debugging: Debugging,
    pub stack_size: StackSize,
    pub source: Seq<char>,
    pub filename: Option<Seq<char>>,
}

/// A complete set of compilation options. It is produced by
/// `ConfigurationBuilder::build` and read-only afterwards.
#[derive(Clone, Debug)]
pub struct Configuration {
    pub(crate) profile: Profile,
    pub(crate) debugging: Debugging,
    pub(crate) stack_size: StackSize,
    pub(crate) source: Source,
    pub(crate) filename: Filename,
}

impl View for Configuration {
    type V = ConfigurationModel;

    closed spec fn view(&self) -> ConfigurationModel {
        ConfigurationModel {
            profile: self.profile,
            debugging: self.debugging,
            stack_size: self.stack_size,
            source: self.source@,
            filename: self.filename@,
        }
    }
}

impl Configuration {
    /// Puts the five options together.
    pub(crate) fn new(
        profile: Profile,
        debugging: Debugging,
        stack_size: StackSize,
        source: Source,
        filename: Filename,
    ) -> (r: Configuration)
        ensures
            r@ == (ConfigurationModel {
                profile,
                debugging,
                stack_size,
                source: source@,
                filename: filename@,
            }),
    {
        Configuration { profile, debugging, stack_size, source, filename }
    }

    /// The optimization level.
    #[must_use]
    pub fn profile(&self) -> (r: &Profile)
        ensures
            *r == self@.profile,
    {
        &self.profile
    }

    /// Whether debug information is emitted.
    #[must_use]
    pub fn debugging(&self) -> (r: &Debugging)
        ensures
            *r == self@.debugging,
    {
        &self.debugging
    }

    /// The source text.
    #[must_use]
    pub fn source(&self) -> (r: &str)
        ensures
            r@ == self@.source,
    {
        self.source.as_str()
    }
}

/// The name of the source file when none is configured.
pub const DEFAULT_SOURCE_FILENAME: &'static str = "rustc-to-wasm-source.rs";

/// The name of the file that the compiler writes the module to.
pub const OUTPUT_FILENAME: &'static str = "rustc-to-wasm-out.wasm";

/// The compiler that is invoked.
pub const PROGRAM: &'static str = "rustc";

/// The character of a decimal digit.
pub open spec fn digit_char(d: nat) -> char {
    if d == 0 {
        '0'
    } else if d == 1 {
        '1'
    } else if d == 2 {
        '2'
    } else if d == 3 {
        '3'
    } else if d == 4 {
        '4'
    } else if d == 5 {
        '5'
    } else if d == 6 {
        '6'
    } else if d == 7 {
        '7'
    } else if d == 8 {
        '8'
    } else {
        '9'
    }
}

/// `n` written in decimal, without leading zeros.
pub open spec fn decimal(n: nat) -> Seq<char>
    decreases n,
{
    if n < 10 {
        seq![digit_char(n)]
    } else {
        decimal(n / 10).push(digit_char(n % 10))
    }
}

fn digit_str(d: u32) -> (r: &'static str)
    requires
        d < 10,
    ensures
        r@ == seq![digit_char(d as nat)],
{
    proof {
        reveal_strlit("0");
        reveal_strlit("1");
        reveal_strlit("2");
        reveal_strlit("3");
        reveal_strlit("4");
        reveal_strlit("5");
        reveal_strlit("6");
        reveal_strlit("7");
        reveal_strlit("8");
        reveal_strlit("9");
    }
    match d {
        0 => "0",
        1 => "1",
        2 => "2",
        3 => "3",
        4 => "4",
        5 => "5",
        6 => "6",
        7 => "7",
        8 => "8",
        _ => "9",
    }
}

/// Writes `n` in decimal.
pub fn decimal_string(n: u32) -> (r: String)
    ensures
        r@ == decimal(n as nat),
    decreases n,
{
    if n < 10 {
        String::from_str(digit_str(n))
    } else {
        let mut s = decimal_string(n / 10);
        s.append(digit_str(n % 10));
        s
    }
}

impl Profile {
    /// The optimization flag of this level.
    pub open spec fn flag(self) -> Seq<char> {
        match self {
            Profile::O0 => "-Copt-level=0"@,
            Profile::O1 => "-Copt-level=1"@,
            Profile::O2 => "-Copt-level=2"@,
            Profile::O3 => "-Copt-level=3"@,
        }
    }

    /// Appends the optimization flag.
    pub fn include_in(&self, args: &mut Vec<String>)
        ensures
            final(args).deep_view() == old(args).deep_view().push(self.flag()),
    {
        let arg = match self {
            Profile::O0 => "-Copt-level=0",
            Profile::O1 => "-Copt-level=1",
            Profile::O2 => "-Copt-level=2",
            Profile::O3 => "-Copt-level=3",
        };
        args.push(String::from_str(arg));
        assert(final(args).deep_view() =~= old(args).deep_view().push(self.flag()));
    }
}

/// The start of the stack-size argument, before the byte count.
pub open spec fn stack_size_prefix() -> Seq<char> {
    "-Clink-args=-zstack-size="@
}

impl StackSize {
    /// The arguments for this stack size: none for the default, else one
    /// linker argument that carries the byte count.
    pub open spec fn flags(self) -> Seq<Seq<char>> {
        match self {
            StackSize::Unspecified => seq![],
            StackSize::Configured(size) => seq![stack_size_prefix() + decimal(size as nat)],
        }
    }

    /// Appends the stack-size argument, if a size is configured.
    pub fn include_in(&self, args: &mut Vec<String>)
        ensures
            final(args).deep_view() == old(args).deep_view() + self.flags(),
    {
        match self {
            StackSize::Unspecified => {
                assert(final(args).deep_view() =~= old(args).deep_view() + self.flags());
            },
            StackSize::Configured(size) => {
                let mut arg = String::from_str("-Clink-args=-zstack-size=");
                let digits = decimal_string(*size);
                arg.append(digits.as_str());
                args.push(arg);
                assert(final(args).deep_view() =~= old(args).deep_view() + self.flags());
            },
        }
    }
}

impl Debugging {
    /// The arguments for this setting: the debug flag when enabled, else none.
    pub open spec fn flags(self) -> Seq<Seq<char>> {
        match self {
            Debugging::Enabled => seq!["-g"@],
            Debugging::Disabled => seq![],
        }
    }

    /// Appends the debug flag, if debug information is enabled.
    pub fn include_in(&self, args: &mut Vec<String>)
        ensures
            final(args).deep_view() == old(args).deep_view() + self.flags(),
    {
        match self {
            Debugging::Enabled => {
                args.push(String::from_str("-g"));
            },
            Debugging::Disabled => {},
        }
        assert(final(args).deep_view() =~= old(args).deep_view() + self.flags());
    }
}

/// A program to run and the arguments to run it with, in order.
pub struct Invocation {
    pub program: String,
    pub args: Vec<String>,
}

/// The target platform argument.
pub open spec fn target_flag() -> Seq<char> {
    "--target=wasm32-unknown-unknown"@
}

/// The output-kind argument: a library module, which needs no `main`.
pub open spec fn crate_type_flag() -> Seq<char> {
    "--crate-type=cdylib"@
}

impl ConfigurationModel {
    /// The compiler arguments for these options: the input path, the
    /// optimization flag, the debug flag and the stack-size argument where
    /// they apply, the target, the output kind, and the output path after `-o`.
    pub open spec fn args(self, input_path: Seq<char>, output_path: Seq<char>) -> Seq<Seq<char>> {
        seq![input_path, self.profile.flag()] + self.debugging.flags() + self.stack_size.flags()
            + seq![target_flag(), crate_type_flag(), "-o"@, output_path]
    }

    /// The name of the source file: the configured one, or the default.
    pub open spec fn source_filename(self) -> Seq<char> {
        match self.filename {
            None => DEFAULT_SOURCE_FILENAME@,
            Some(name) => name,
        }
    }
}

impl Configuration {
    /// The `rustc` invocation that compiles the file at `input_path` into a
    /// module at `output_path` with these options.
    pub fn as_command(&self, input_path: &str, output_path: &str) -> (r: Invocation)
        ensures
            r.program@ == PROGRAM@,
            r.args.deep_view() == self@.args(input_path@, output_path@),
    {
        let mut args: Vec<String> = Vec::new();
        args.push(String::from_str(input_path));
        self.profile.include_in(&mut args);
        self.debugging.include_in(&mut args);
        self.stack_size.include_in(&mut args);
        let ghost options = args.deep_view();
        assert(options =~= seq![input_path@, self.profile.flag()] + self.debugging.flags()
            + self.stack_size.flags());
        args.push(String::from_str("--target=wasm32-unknown-unknown"));
        args.push(String::from_str("--crate-type=cdylib"));
        args.push(String::from_str("-o"));
        args.push(String::from_str(output_path));
        assert(args.deep_view() =~= options + seq![
            target_flag(),
            crate_type_flag(),
            "-o"@,
            output_path@,
        ]);
        Invocation { program: String::from_str(PROGRAM), args }
    }

    /// The name under which the source is written for the compiler.
    pub fn source_filename(&self) -> (r: &str)
        ensures
            r@ == self@.source_filename(),
    {
        match &self.filename {
            Filename::Unspecified => DEFAULT_SOURCE_FILENAME,
            Filename::Configured(name) => name.as_str(),
        }
    }
}

/// Rendering leaves out what is not configured: without debug information no
/// argument is the debug flag, without a stack size no argument starts as the
/// stack-size argument does, and each such omission makes the list one shorter.
pub proof fn lemma_flag_omission(c: ConfigurationModel, input_path: Seq<char>, output_path: Seq<char>)
    requires
        input_path != "-g"@,
        output_path != "-g"@,
        !stack_size_prefix().is_prefix_of(input_path),
        !stack_size_prefix().is_prefix_of(output_path),
    ensures
        c.args(input_path, output_path).len() == 6 + (if c.debugging == Debugging::Enabled { 1int } else { 0 })
            + (if c.stack_size is Configured { 1int } else { 0 }),
        c.debugging == Debugging::Disabled ==> !c.args(input_path, output_path).contains("-g"@),
        c.stack_size == StackSize::Unspecified ==> forall|k: int| 0 <= k < c.args(input_path, output_path).len()
            ==> !stack_size_prefix().is_prefix_of(#[trigger] c.args(input_path, output_path)[k]),
{
    reveal_strlit("-g");
    reveal_strlit("-o");
    reveal_strlit("-Copt-level=0");
    reveal_strlit("-Copt-level=1");
    reveal_strlit("-Copt-level=2");
    reveal_strlit("-Copt-level=3");
    reveal_strlit("--target=wasm32-unknown-unknown");
    reveal_strlit("--crate-type=cdylib");
    reveal_strlit("-Clink-args=-zstack-size=");
    let a = c.args(input_path, output_path);
    if c.debugging == Debugging::Disabled {
        assert(c.debugging.flags() =~= seq![]);
        assert forall|k: int| 0 <= k < a.len() implies a[k] != "-g"@ by {
            if k == 1 {
                assert(a[k][2] != "-g"@[1]);
            } else if k == a.len() - 4 {
                assert(a[k][2] != "-g"@[1]);
            } else if k == a.len() - 3 {
                assert(a[k][2] != "-g"@[1]);
            } else if k == a.len() - 2 {
                assert(a[k][1] != "-g"@[1]);
            } else if 0 < k < a.len() - 4 {
                assert(a[k][1] != "-g"@[1]);
            }
        }
    }
    if c.stack_size == StackSize::Unspecified {
        assert(c.stack_size.flags() =~= seq![]);
        assert forall|k: int| 0 <= k < a.len() implies !stack_size_prefix().is_prefix_of(#[trigger] a[k]) by {
            if k == a.len() - 4 {
                assert(a[k][1] != stack_size_prefix()[1]);
            } else if k == a.len() - 2 && c.debugging == Debugging::Enabled {
                assert(a[k][1] != stack_size_prefix()[1]);
            }
        }
    }
}

} // verus!
