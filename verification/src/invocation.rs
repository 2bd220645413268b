//! One run of the compiler: the options gathered for it and the command they make.
use vstd::prelude::*;
use vstd::slice::slice_to_vec;
use vstd::string::*;
use vstd::utf8::encode_utf8;
use crate::address::Address;
use crate::keyed::{distinct_keys, lemma_position, lemma_put_distinct, position, put};
use crate::libraries::{binding_text, bindings, copy_bindings, Binding};
use crate::text::{contains_bytes, join, joined, mentions, texts};

verus! {

/// An import prefix and the directory it stands for.
#[derive(Debug, PartialEq, Eq)]
pub struct Remapping {
    pub name: String,
    pub path: String,
}

impl View for Remapping {
    type V = (Seq<char>, Seq<char>);

    open spec fn view(&self) -> (Seq<char>, Seq<char>) {
        (self.name@, self.path@)
    }
}

/// The remappings held by a sequence of `Remapping`s, in order.
pub open spec fn remappings(held: Seq<Remapping>) -> Seq<(Seq<char>, Seq<char>)> {
    Seq::new(held.len(), |i: int| held[i]@)
}

/// Why no command can be made of the options gathered.
#[derive(Clone, Copy, Debug, PartialEq, Eq)]
pub enum BuildError {
    /// Linking is asked for and no library address is at hand.
    LinkWithoutLibraries,
    /// No source file is named.
    NoSourceFiles,
    /// Neither binary nor interface output is asked for.
    NoOutputRequested,
}

/// A process to run: the program, the directory to run it in, its arguments.
#[derive(Debug, PartialEq, Eq)]
pub struct CompilerCommand {
    pub program: String,
    pub working_dir: String,
    pub arguments: Vec<String>,
}

/// A `CompilerCommand` as plain texts.
pub struct CommandView {
    pub program: Seq<char>,
    pub working_dir: Seq<char>,
    pub arguments: Seq<Seq<char>>,
}

impl View for CompilerCommand {
    type V = CommandView;

    open spec fn view(&self) -> CommandView {
        CommandView {
            program: self.program@,
            working_dir: self.working_dir@,
            arguments: texts(self.arguments@),
        }
    }
}

/// The options of one compiler run as plain values.
pub struct InvocationView {
    pub root: Seq<char>,
    pub output_dir: Option<Seq<char>>,
    pub bin: bool,
    pub abi: bool,
    pub overwrite: bool,
    pub link: bool,
    pub allow_paths: Seq<Seq<char>>,
    pub mappings: Seq<(Seq<char>, Seq<char>)>,
    pub libraries: Seq<(Seq<char>, Address)>,
    pub sources: Seq<Seq<char>>,
}

/// The flags that ask for binary and interface output.
pub open spec fn kind_flags(bin: bool, abi: bool) -> Seq<Seq<char>> {
    (if bin {
        seq!["--bin"@]
    } else {
        Seq::empty()
    }) + (if abi {
        seq!["--abi"@]
    } else {
        Seq::empty()
    })
}

/// The allow-list as one flag and the paths joined by commas; nothing for an empty list.
pub open spec fn allow_flags(paths: Seq<Seq<char>>) -> Seq<Seq<char>> {
    if paths.len() == 0 {
        Seq::empty()
    } else {
        seq!["--allow-paths"@, joined(paths, ","@)]
    }
}

/// One remapping as the compiler reads it: `name=path`.
pub open spec fn remapping_text(entry: (Seq<char>, Seq<char>)) -> Seq<char> {
    entry.0 + "="@ + entry.1
}

/// One argument for each remapping, in order.
pub open spec fn remapping_flags(mappings: Seq<(Seq<char>, Seq<char>)>) -> Seq<Seq<char>> {
    Seq::new(mappings.len(), |i: int| remapping_text(mappings[i]))
}

/// The library addresses as texts, in order.
pub open spec fn binding_texts(libraries: Seq<(Seq<char>, Address)>) -> Seq<Seq<char>> {
    Seq::new(libraries.len(), |i: int| binding_text(libraries[i]))
}

/// The linking flag with the library addresses joined by commas, if linking is asked for.
pub open spec fn link_flags(link: bool, libraries: Seq<(Seq<char>, Address)>) -> Seq<Seq<char>> {
    if link {
        seq!["--libraries"@, joined(binding_texts(libraries), ","@)]
    } else {
        Seq::empty()
    }
}

/// The output directory behind its flag, if one is set.
pub open spec fn output_flags(dir: Option<Seq<char>>) -> Seq<Seq<char>> {
    match dir {
        Some(dir) => seq!["-o"@, dir],
        None => Seq::empty(),
    }
}

/// The flag that lets existing output be replaced, if that is asked for.
pub open spec fn overwrite_flags(overwrite: bool) -> Seq<Seq<char>> {
    if overwrite {
        seq!["--overwrite"@]
    } else {
        Seq::empty()
    }
}

impl InvocationView {
    /// The options with which every invocation starts.
    pub open spec fn fresh(root: Seq<char>) -> InvocationView {
        InvocationView {
            root,
            output_dir: None,
            bin: false,
            abi: false,
            overwrite: false,
            link: false,
            allow_paths: Seq::empty(),
            mappings: Seq::empty(),
            libraries: Seq::empty(),
            sources: Seq::empty(),
        }
    }

    /// Why these options make no command, if they make none. Linking
    /// without library addresses is reported before anything else.
    pub open spec fn refusal(self) -> Option<BuildError> {
        if self.link && self.libraries.len() == 0 {
            Some(BuildError::LinkWithoutLibraries)
        } else if self.sources.len() == 0 {
            Some(BuildError::NoSourceFiles)
        } else if !self.bin && !self.abi {
            Some(BuildError::NoOutputRequested)
        } else {
            None
        }
    }

    /// The argument list: output kinds, allow-list, remappings, libraries,
    /// output directory, overwrite, and the source files last.
    pub open spec fn arguments(self) -> Seq<Seq<char>> {
        kind_flags(self.bin, self.abi) + allow_flags(self.allow_paths) + remapping_flags(
            self.mappings,
        ) + link_flags(self.link, self.libraries) + output_flags(self.output_dir)
            + overwrite_flags(self.overwrite) + self.sources
    }

    /// The command that these options make.
    pub open spec fn command(self) -> CommandView {
        CommandView { program: "solc"@, working_dir: self.root, arguments: self.arguments() }
    }
}

/// The options gathered for one run of the compiler.
#[derive(Debug)]
pub struct CompilerInvocation {
    root: String,
    output_dir: Option<String>,
    bin: bool,
    abi: bool,
    overwrite: bool,
    link: bool,
    allow_paths: Vec<String>,
    mappings: Vec<Remapping>,
    libraries: Vec<Binding>,
    sources: Vec<String>,
}

impl View for CompilerInvocation {
    type V = InvocationView;

    closed spec fn view(&self) -> InvocationView {
        InvocationView {
            root: self.root@,
            output_dir: match self.output_dir {
                Some(dir) => Some(dir@),
                None => None,
            },
            bin: self.bin,
            abi: self.abi,
            overwrite: self.overwrite,
            link: self.link,
            allow_paths: texts(self.allow_paths@),
            mappings: remappings(self.mappings@),
            libraries: bindings(self.libraries@),
            sources: texts(self.sources@),
        }
    }
}

fn push_text(list: &mut Vec<String>, text: &str)
    ensures
        texts(final(list)@) == texts(old(list)@).push(text@),
{
    list.push(String::from_str(text));
    proof {
        assert(texts(list@) =~= texts(old(list)@).push(text@));
    }
}

fn find_remapping(list: &Vec<Remapping>, name: &str) -> (at: usize)
    ensures
        at == position(remappings(list@), name@),
{
    let wanted = String::from_str(name);
    let mut at: usize = 0;
    while at < list.len()
        invariant
            at <= list.len(),
            wanted@ == name@,
            forall|k: int| 0 <= k < at ==> (#[trigger] remappings(list@)[k]).0 != name@,
        decreases list.len() - at,
    {
        if list[at].name == wanted {
            proof {
                lemma_position(remappings(list@), name@, at as int);
            }
            return at;
        }
        at = at + 1;
    }
    proof {
        lemma_position(remappings(list@), name@, at as int);
    }
    at
}

fn find_binding(list: &Vec<Binding>, name: &str) -> (at: usize)
    ensures
        at == position(bindings(list@), name@),
{
    let wanted = String::from_str(name);
    let mut at: usize = 0;
    while at < list.len()
        invariant
            at <= list.len(),
            wanted@ == name@,
            forall|k: int| 0 <= k < at ==> (#[trigger] bindings(list@)[k]).0 != name@,
        decreases list.len() - at,
    {
        if list[at].name == wanted {
            proof {
                lemma_position(bindings(list@), name@, at as int);
            }
            return at;
        }
        at = at + 1;
    }
    proof {
        lemma_position(bindings(list@), name@, at as int);
    }
    at
}

fn append_texts(list: &mut Vec<String>, more: Vec<String>)
    ensures
        texts(final(list)@) == texts(old(list)@) + texts(more@),
{
    let mut more = more;
    let ghost added = more@;
    list.append(&mut more);
    proof {
        assert(texts(list@) =~= texts(old(list)@) + texts(added));
    }
}

fn copy_texts(list: &Vec<String>) -> (copy: Vec<String>)
    ensures
        texts(copy@) == texts(list@),
{
    let mut copy: Vec<String> = Vec::new();
    let mut i: usize = 0;
    while i < list.len()
        invariant
            i <= list.len(),
            copy.len() == i,
            forall|k: int| 0 <= k < i ==> copy@[k]@ == list@[k]@,
        decreases list.len() - i,
    {
        copy.push(list[i].clone());
        i = i + 1;
    }
    proof {
        assert(texts(copy@) =~= texts(list@));
    }
    copy
}

fn remapping_arguments(list: &Vec<Remapping>) -> (arguments: Vec<String>)
    ensures
        texts(arguments@) == remapping_flags(remappings(list@)),
{
    let mut arguments: Vec<String> = Vec::new();
    let mut i: usize = 0;
    while i < list.len()
        invariant
            i <= list.len(),
            arguments.len() == i,
            forall|k: int| 0 <= k < i ==> arguments@[k]@ == remapping_text(list@[k]@),
        decreases list.len() - i,
    {
        let mut argument = list[i].name.clone();
        argument.append("=");
        argument.append(list[i].path.as_str());
        arguments.push(argument);
        i = i + 1;
    }
    proof {
        assert(texts(arguments@) =~= remapping_flags(remappings(list@)));
    }
    arguments
}

fn binding_arguments(list: &Vec<Binding>) -> (arguments: Vec<String>)
    ensures
        texts(arguments@) == binding_texts(bindings(list@)),
{
    let mut arguments: Vec<String> = Vec::new();
    let mut i: usize = 0;
    while i < list.len()
        invariant
            i <= list.len(),
            arguments.len() == i,
            forall|k: int| 0 <= k < i ==> arguments@[k]@ == binding_text(list@[k]@),
        decreases list.len() - i,
    {
        arguments.push(list[i].text());
        i = i + 1;
    }
    proof {
        assert(texts(arguments@) =~= binding_texts(bindings(list@)));
    }
    arguments
}

impl CompilerInvocation {
    /// No import prefix and no library name stands twice.
    pub open spec fn valid(&self) -> bool {
        distinct_keys(self@.mappings) && distinct_keys(self@.libraries)
    }

    /// An invocation for the sources under `root`, with nothing asked for yet.
    pub fn new(root: &str) -> (invocation: CompilerInvocation)
        ensures
            invocation@ == InvocationView::fresh(root@),
            invocation.valid(),
    {
        let invocation = CompilerInvocation {
            root: String::from_str(root),
            output_dir: None,
            bin: false,
            abi: false,
            overwrite: false,
            link: false,
            allow_paths: Vec::new(),
            mappings: Vec::new(),
            libraries: Vec::new(),
            sources: Vec::new(),
        };
        proof {
            assert(invocation@.allow_paths =~= Seq::<Seq<char>>::empty());
            assert(invocation@.sources =~= Seq::<Seq<char>>::empty());
            assert(invocation@.mappings =~= Seq::<(Seq<char>, Seq<char>)>::empty());
            assert(invocation@.libraries =~= Seq::<(Seq<char>, Address)>::empty());
        }
        invocation
    }

    /// Asks for binary output.
    pub fn bin(self) -> (next: CompilerInvocation)
        ensures
            next@ == (InvocationView { bin: true, ..self@ }),
            self.valid() ==> next.valid(),
    {
        let mut next = self;
        next.bin = true;
        next
    }

    /// Asks for interface output.
    pub fn abi(self) -> (next: CompilerInvocation)
        ensures
            next@ == (InvocationView { abi: true, ..self@ }),
            self.valid() ==> next.valid(),
    {
        let mut next = self;
        next.abi = true;
        next
    }

    /// Lets the compiler replace output that is already there.
    pub fn overwrite(self) -> (next: CompilerInvocation)
        ensures
            next@ == (InvocationView { overwrite: true, ..self@ }),
            self.valid() ==> next.valid(),
    {
        let mut next = self;
        next.overwrite = true;
        next
    }

    /// Asks for the libraries to be linked in.
    pub fn link(self) -> (next: CompilerInvocation)
        ensures
            next@ == (InvocationView { link: true, ..self@ }),
            self.valid() ==> next.valid(),
    {
        let mut next = self;
        next.link = true;
        next
    }

    /// Sets the directory that the compiler writes to.
    pub fn output_dir(self, dir: &str) -> (next: CompilerInvocation)
        ensures
            next@ == (InvocationView { output_dir: Some(dir@), ..self@ }),
            self.valid() ==> next.valid(),
    {
        let mut next = self;
        next.output_dir = Some(String::from_str(dir));
        next
    }

    /// Adds a path to the end of the allow-list.
    pub fn allow_path(self, path: &str) -> (next: CompilerInvocation)
        ensures
            next@ == (InvocationView { allow_paths: self@.allow_paths.push(path@), ..self@ }),
            self.valid() ==> next.valid(),
    {
        let mut next = self;
        push_text(&mut next.allow_paths, path);
        next
    }

    /// Adds a source file to the end of the list.
    pub fn add_source(self, source: &str) -> (next: CompilerInvocation)
        ensures
            next@ == (InvocationView { sources: self@.sources.push(source@), ..self@ }),
            self.valid() ==> next.valid(),
    {
        let mut next = self;
        push_text(&mut next.sources, source);
        next
    }

    /// Maps the import prefix `name` to `path`. A prefix that is already
    /// mapped keeps its place and takes the new path.
    pub fn add_mapping(self, name: &str, path: &str) -> (next: CompilerInvocation)
        ensures
            next@ == (InvocationView { mappings: put(self@.mappings, name@, path@), ..self@ }),
            self.valid() ==> next.valid(),
    {
        let mut next = self;
        let at = find_remapping(&next.mappings, name);
        let entry = Remapping { name: String::from_str(name), path: String::from_str(path) };
        let ghost before = remappings(next.mappings@);
        proof {
            if distinct_keys(before) {
                lemma_put_distinct(before, name@, path@);
            }
        }
        if at < next.mappings.len() {
            next.mappings[at] = entry;
            proof {
                assert(remappings(next.mappings@) =~= before.update(at as int, (name@, path@)));
            }
        } else {
            next.mappings.push(entry);
            proof {
                assert(remappings(next.mappings@) =~= before.push((name@, path@)));
            }
        }
        next
    }

    /// Binds the library `name` to `address`. A library that is already
    /// bound keeps its place and takes the new address.
    pub fn add_library_address(self, name: &str, address: Address) -> (next: CompilerInvocation)
        ensures
            next@ == (InvocationView {
                libraries: put(self@.libraries, name@, address),
                ..self@
            }),
            self.valid() ==> next.valid(),
    {
        let mut next = self;
        let at = find_binding(&next.libraries, name);
        let entry = Binding::new(name, address);
        let ghost before = bindings(next.libraries@);
        proof {
            if distinct_keys(before) {
                lemma_put_distinct(before, name@, address);
            }
        }
        if at < next.libraries.len() {
            next.libraries[at] = entry;
            proof {
                assert(bindings(next.libraries@) =~= before.update(at as int, (name@, address)));
            }
        } else {
            next.libraries.push(entry);
            proof {
                assert(bindings(next.libraries@) =~= before.push((name@, address)));
            }
        }
        next
    }

    /// Takes the given library addresses in place of those held so far.
    pub fn libraries(self, list: Vec<Binding>) -> (next: CompilerInvocation)
        ensures
            next@ == (InvocationView { libraries: bindings(list@), ..self@ }),
            self.valid() && distinct_keys(bindings(list@)) ==> next.valid(),
    {
        let mut next = self;
        next.libraries = list;
        next
    }

    /// The library addresses held, in order.
    pub fn library_bindings(&self) -> (list: Vec<Binding>)
        ensures
            bindings(list@) == self@.libraries,
    {
        copy_bindings(&self.libraries)
    }

    fn kind_arguments(&self) -> (arguments: Vec<String>)
        ensures
            texts(arguments@) == kind_flags(self@.bin, self@.abi),
    {
        let mut arguments: Vec<String> = Vec::new();
        proof {
            assert(texts(arguments@) =~= Seq::<Seq<char>>::empty());
        }
        if self.bin {
            push_text(&mut arguments, "--bin");
        }
        if self.abi {
            push_text(&mut arguments, "--abi");
        }
        proof {
            assert(texts(arguments@) =~= kind_flags(self@.bin, self@.abi));
        }
        arguments
    }

    fn allow_arguments(&self) -> (arguments: Vec<String>)
        ensures
            texts(arguments@) == allow_flags(self@.allow_paths),
    {
        let mut arguments: Vec<String> = Vec::new();
        proof {
            assert(texts(arguments@) =~= Seq::<Seq<char>>::empty());
        }
        if self.allow_paths.len() > 0 {
            push_text(&mut arguments, "--allow-paths");
            let list = join(&self.allow_paths, ",");
            push_text(&mut arguments, list.as_str());
        }
        proof {
            assert(texts(arguments@) =~= allow_flags(self@.allow_paths));
        }
        arguments
    }

    fn link_arguments(&self) -> (arguments: Vec<String>)
        ensures
            texts(arguments@) == link_flags(self@.link, self@.libraries),
    {
        let mut arguments: Vec<String> = Vec::new();
        proof {
            assert(texts(arguments@) =~= Seq::<Seq<char>>::empty());
        }
        if self.link {
            push_text(&mut arguments, "--libraries");
            let written = binding_arguments(&self.libraries);
            let list = join(&written, ",");
            push_text(&mut arguments, list.as_str());
        }
        proof {
            assert(texts(arguments@) =~= link_flags(self@.link, self@.libraries));
        }
        arguments
    }

    fn output_arguments(&self) -> (arguments: Vec<String>)
        ensures
            texts(arguments@) == output_flags(self@.output_dir),
    {
        let mut arguments: Vec<String> = Vec::new();
        proof {
            assert(texts(arguments@) =~= Seq::<Seq<char>>::empty());
        }
        match &self.output_dir {
            Some(dir) => {
                push_text(&mut arguments, "-o");
                push_text(&mut arguments, dir.as_str());
            },
            None => {},
        }
        proof {
            assert(texts(arguments@) =~= output_flags(self@.output_dir));
        }
        arguments
    }

    fn overwrite_arguments(&self) -> (arguments: Vec<String>)
        ensures
            texts(arguments@) == overwrite_flags(self@.overwrite),
    {
        let mut arguments: Vec<String> = Vec::new();
        proof {
            assert(texts(arguments@) =~= Seq::<Seq<char>>::empty());
        }
        if self.overwrite {
            push_text(&mut arguments, "--overwrite");
        }
        proof {
            assert(texts(arguments@) =~= overwrite_flags(self@.overwrite));
        }
        arguments
    }

    /// Freezes the options into the command to run, or says why they make
    /// none. Nothing is run or read here.
    pub fn execute(&self) -> (result: Result<CompilerCommand, BuildError>)
        ensures
            match result {
                Ok(command) => self@.refusal() is None && command@ == self@.command(),
                Err(error) => self@.refusal() == Some(error),
            },
    {
        if self.link && self.libraries.len() == 0 {
            return Err(BuildError::LinkWithoutLibraries);
        }
        if self.sources.len() == 0 {
            return Err(BuildError::NoSourceFiles);
        }
        if !self.bin && !self.abi {
            return Err(BuildError::NoOutputRequested);
        }
        let mut arguments = self.kind_arguments();
        append_texts(&mut arguments, self.allow_arguments());
        append_texts(&mut arguments, remapping_arguments(&self.mappings));
        append_texts(&mut arguments, self.link_arguments());
        append_texts(&mut arguments, self.output_arguments());
        append_texts(&mut arguments, self.overwrite_arguments());
        append_texts(&mut arguments, copy_texts(&self.sources));
        Ok(
            CompilerCommand {
                program: String::from_str("solc"),
                working_dir: self.root.clone(),
                arguments,
            },
        )
    }
}

/// Why a compiler run counts as failed, with what the compiler or the
/// system said of it.
#[derive(Debug, PartialEq, Eq)]
pub enum CompileError {
    /// The compiler could not be started; `cause` is what was reported of it.
    NotStarted { cause: String },
    /// The compiler ended without an exit status, leaving this error output.
    Interrupted { stderr: Vec<u8> },
    /// The compiler ended with this status, and its error output does not
    /// hold the notice that existing output was kept.
    Exited { status: i32, stderr: Vec<u8> },
}

/// A `CompileError` as a plain value.
pub enum CompileErrorView {
    NotStarted { cause: Seq<char> },
    Interrupted { stderr: Seq<u8> },
    Exited { status: i32, stderr: Seq<u8> },
}

impl View for CompileError {
    type V = CompileErrorView;

    open spec fn view(&self) -> CompileErrorView {
        match self {
            CompileError::NotStarted { cause } => CompileErrorView::NotStarted { cause: cause@ },
            CompileError::Interrupted { stderr } => CompileErrorView::Interrupted {
                stderr: stderr@,
            },
            CompileError::Exited { status, stderr } => CompileErrorView::Exited {
                status: *status,
                stderr: stderr@,
            },
        }
    }
}

impl CompileError {
    /// A second value that says the same.
    pub fn copy(&self) -> (error: CompileError)
        ensures
            error@ == self@,
    {
        match self {
            CompileError::NotStarted { cause } => CompileError::NotStarted {
                cause: cause.clone(),
            },
            CompileError::Interrupted { stderr } => CompileError::Interrupted {
                stderr: slice_to_vec(stderr.as_slice()),
            },
            CompileError::Exited { status, stderr } => CompileError::Exited {
                status: *status,
                stderr: slice_to_vec(stderr.as_slice()),
            },
        }
    }
}

/// What a verdict says.
pub open spec fn verdict_view(verdict: Result<(), CompileError>) -> Result<(), CompileErrorView> {
    match verdict {
        Ok(_) => Ok(()),
        Err(error) => Err(error@),
    }
}

/// What the compiler's error output holds when it has kept existing output.
pub open spec fn overwrite_notice() -> Seq<u8> {
    encode_utf8("refusing to overwrite"@)
}

/// How a compiler run is judged. Status zero is success. Any other status
/// is success only where the error output contains the notice that existing
/// output was kept, byte for byte. A run without a status has failed. A
/// failure keeps the error output as it was.
pub open spec fn exit_verdict(status: Option<i32>, stderr: Seq<u8>) -> Result<
    (),
    CompileErrorView,
> {
    match status {
        None => Err(CompileErrorView::Interrupted { stderr }),
        Some(code) => if code == 0 || mentions(stderr, overwrite_notice()) {
            Ok(())
        } else {
            Err(CompileErrorView::Exited { status: code, stderr })
        },
    }
}

/// Judges a compiler run by its exit status and what it wrote to its error output.
pub fn judge_exit(status: Option<i32>, stderr: &[u8]) -> (verdict: Result<(), CompileError>)
    ensures
        verdict_view(verdict) == exit_verdict(status, stderr@),
{
    match status {
        None => Err(CompileError::Interrupted { stderr: slice_to_vec(stderr) }),
        Some(code) => {
            if code == 0 {
                Ok(())
            } else if contains_bytes(stderr, "refusing to overwrite".as_bytes()) {
                Ok(())
            } else {
                Err(CompileError::Exited { status: code, stderr: slice_to_vec(stderr) })
            }
        },
    }
}

/// The command depends on the options alone: two invocations that hold the
/// same options make the same command, or are refused for the same reason.
pub proof fn lemma_same_options_same_command(first: CompilerInvocation, second: CompilerInvocation)
    requires
        first@ == second@,
    ensures
        first@.refusal() == second@.refusal(),
        first@.command() == second@.command(),
        first@.arguments() == second@.arguments(),
{
}

/// Linking without a library address makes no command, whatever else is asked for.
pub proof fn lemma_link_needs_libraries(options: InvocationView)
    requires
        options.link,
        options.libraries.len() == 0,
    ensures
        options.refusal() == Some(BuildError::LinkWithoutLibraries),
{
}

} // verus!
