//! The Solidity compiler: where its artifacts lie and how it is invoked.
use vstd::prelude::*;
use vstd::string::*;
use vstd::utf8::*;
use crate::hex::{from_hex, hex_decoded, hex_encoded, lemma_round_trip, HexFault};
use crate::invocation::{CompilerInvocation, InvocationView};
use crate::text::texts;

verus! {

/// What came of reading one file, as the caller found it.
#[derive(Debug, PartialEq, Eq)]
pub enum FileRead {
    /// No file lies at the path.
    Missing,
    /// The file is there and could not be read; `cause` is what was reported of it.
    Unreadable { cause: String },
    /// The bytes of the file.
    Contents(Vec<u8>),
}

/// A `FileRead` as a plain value.
pub enum FileReadView {
    Missing,
    Unreadable { cause: Seq<char> },
    Contents(Seq<u8>),
}

impl View for FileRead {
    type V = FileReadView;

    open spec fn view(&self) -> FileReadView {
        match self {
            FileRead::Missing => FileReadView::Missing,
            FileRead::Unreadable { cause } => FileReadView::Unreadable { cause: cause@ },
            FileRead::Contents(contents) => FileReadView::Contents(contents@),
        }
    }
}

/// What is wrong with an artifact.
#[derive(Debug, PartialEq, Eq)]
pub enum ArtifactFault {
    /// No file lies at the path.
    Missing,
    /// The file is there and could not be read; `cause` is what was reported of it.
    Unreadable { cause: String },
    /// The file does not hold text.
    NotText,
    /// The file holds text that is not hexadecimal.
    NotHex(HexFault),
}

/// An `ArtifactFault` as a plain value.
pub enum ArtifactFaultView {
    Missing,
    Unreadable { cause: Seq<char> },
    NotText,
    NotHex(HexFault),
}

impl View for ArtifactFault {
    type V = ArtifactFaultView;

    open spec fn view(&self) -> ArtifactFaultView {
        match self {
            ArtifactFault::Missing => ArtifactFaultView::Missing,
            ArtifactFault::Unreadable { cause } => ArtifactFaultView::Unreadable { cause: cause@ },
            ArtifactFault::NotText => ArtifactFaultView::NotText,
            ArtifactFault::NotHex(fault) => ArtifactFaultView::NotHex(*fault),
        }
    }
}

impl ArtifactFault {
    /// A second value that says the same.
    pub fn copy(&self) -> (fault: ArtifactFault)
        ensures
            fault@ == self@,
    {
        match self {
            ArtifactFault::Missing => ArtifactFault::Missing,
            ArtifactFault::Unreadable { cause } => ArtifactFault::Unreadable {
                cause: cause.clone(),
            },
            ArtifactFault::NotText => ArtifactFault::NotText,
            ArtifactFault::NotHex(fault) => ArtifactFault::NotHex(*fault),
        }
    }
}

/// An artifact that could not be loaded, and where it was expected.
#[derive(Debug, PartialEq, Eq)]
pub struct ArtifactError {
    pub path: String,
    pub fault: ArtifactFault,
}

/// The bytecode that the contents of a `.bin` file stand for.
pub open spec fn bytecode_of(contents: Seq<u8>) -> Result<Seq<u8>, ArtifactFaultView> {
    if !valid_utf8(contents) {
        Err(ArtifactFaultView::NotText)
    } else {
        match hex_decoded(decode_utf8(contents)) {
            Ok(bytes) => Ok(bytes),
            Err(fault) => Err(ArtifactFaultView::NotHex(fault)),
        }
    }
}

/// The bytecode that reading a `.bin` file gives.
pub open spec fn loaded_bytecode(read: FileReadView) -> Result<Seq<u8>, ArtifactFaultView> {
    match read {
        FileReadView::Missing => Err(ArtifactFaultView::Missing),
        FileReadView::Unreadable { cause } => Err(ArtifactFaultView::Unreadable { cause }),
        FileReadView::Contents(contents) => bytecode_of(contents),
    }
}

/// The interface description that reading an `.abi` file gives: its bytes as they are.
pub open spec fn loaded_abi(read: FileReadView) -> Result<Seq<u8>, ArtifactFaultView> {
    match read {
        FileReadView::Missing => Err(ArtifactFaultView::Missing),
        FileReadView::Unreadable { cause } => Err(ArtifactFaultView::Unreadable { cause }),
        FileReadView::Contents(contents) => Ok(contents),
    }
}

/// Where an artifact lies: `root/dir/name`.
pub open spec fn path_of(root: Seq<char>, dir: Seq<char>, name: Seq<char>) -> Seq<char> {
    root + "/"@ + dir + "/"@ + name
}

/// Calls `std::str::from_utf8`. The contract claims what its documentation
/// says: the bytes are taken as a string slice when they are valid UTF-8, and
/// the slice then holds exactly those bytes; otherwise there is none.
#[verifier::external_body]
fn text_of<'a>(bytes: &'a [u8]) -> (text: Option<&'a str>)
    ensures
        text is Some <==> valid_utf8(bytes@),
        text is Some ==> text.unwrap().spec_bytes() == bytes@,
{
    std::str::from_utf8(bytes).ok()
}

/// Decodes the contents of a `.bin` file: ASCII hexadecimal text.
pub fn decode_bytecode(contents: &[u8]) -> (result: Result<Vec<u8>, ArtifactFault>)
    ensures
        match result {
            Ok(bytes) => bytecode_of(contents@) == Ok::<Seq<u8>, ArtifactFaultView>(bytes@),
            Err(fault) => bytecode_of(contents@) == Err::<Seq<u8>, ArtifactFaultView>(fault@),
        },
{
    match text_of(contents) {
        None => Err(ArtifactFault::NotText),
        Some(text) => {
            proof {
                encode_utf8_decode_utf8(text@);
            }
            match from_hex(text) {
                Ok(bytes) => Ok(bytes),
                Err(fault) => Err(ArtifactFault::NotHex(fault)),
            }
        },
    }
}

/// Bytecode written out as hexadecimal text and read back is the same bytecode.
pub proof fn lemma_bytecode_round_trip(bytes: Seq<u8>)
    ensures
        bytecode_of(encode_utf8(hex_encoded(bytes))) == Ok::<Seq<u8>, ArtifactFaultView>(bytes),
{
    let text = hex_encoded(bytes);
    encode_utf8_valid_utf8(text);
    encode_utf8_decode_utf8(text);
    lemma_round_trip(bytes);
}

/// The compiler as it is set up for one source tree.
#[derive(Debug)]
pub struct Solc {
    /// The directory that holds the contract sources.
    pub root: String,
    /// The directory that the compiler writes to, relative to the root.
    pub output_dir: Option<String>,
    /// The paths that the compiler may read besides the sources.
    pub allow_paths: Vec<String>,
}

impl Solc {
    /// The directory that holds the contract sources.
    pub open spec fn root_text(&self) -> Seq<char> {
        self.root@
    }

    /// The directory that the compiler writes to, if one is set.
    pub open spec fn output_text(&self) -> Option<Seq<char>> {
        match self.output_dir {
            Some(dir) => Some(dir@),
            None => None,
        }
    }

    /// The paths that the compiler may read besides the sources.
    pub open spec fn allowed(&self) -> Seq<Seq<char>> {
        texts(self.allow_paths@)
    }

    /// Where the artifact `name` lies, once an output directory is set.
    pub open spec fn artifact_path_text(&self, name: Seq<char>) -> Seq<char>
        recommends
            self.output_text() is Some,
    {
        path_of(self.root_text(), self.output_text().unwrap(), name)
    }

    /// A compiler for the sources under `root`, with no output directory yet.
    pub fn new(root: &str) -> (compiler: Solc)
        ensures
            compiler.root_text() == root@,
            compiler.output_text() is None,
            compiler.allowed() == Seq::<Seq<char>>::empty(),
    {
        let compiler = Solc {
            root: String::from_str(root),
            output_dir: None,
            allow_paths: Vec::<String>::new(),
        };
        proof {
            assert(compiler.allowed() =~= Seq::<Seq<char>>::empty());
        }
        compiler
    }

    /// Sets the directory that the compiler writes to, relative to the root.
    pub fn set_output_dir(&mut self, dir: &str)
        ensures
            final(self).output_text() == Some(dir@),
            final(self).root_text() == old(self).root_text(),
            final(self).allowed() == old(self).allowed(),
    {
        self.output_dir = Some(String::from_str(dir));
    }

    /// Lets the compiler read below `path` as well.
    pub fn allow_path(&mut self, path: &str)
        ensures
            final(self).allowed() == old(self).allowed().push(path@),
            final(self).root_text() == old(self).root_text(),
            final(self).output_text() == old(self).output_text(),
    {
        self.allow_paths.push(String::from_str(path));
        proof {
            assert(texts(self.allow_paths@) =~= texts(old(self).allow_paths@).push(path@));
        }
    }

    /// The options with which every invocation of this compiler starts:
    /// its root, its output directory and its allow-list, nothing else.
    pub open spec fn starting_options(&self) -> InvocationView {
        InvocationView {
            output_dir: self.output_text(),
            allow_paths: self.allowed(),
            ..InvocationView::fresh(self.root_text())
        }
    }

    /// A new invocation of this compiler.
    pub fn compile(&self) -> (invocation: CompilerInvocation)
        ensures
            invocation@ == self.starting_options(),
            invocation.valid(),
    {
        let mut invocation = CompilerInvocation::new(self.root());
        match &self.output_dir {
            Some(dir) => {
                invocation = invocation.output_dir(dir.as_str());
            },
            None => {},
        }
        let mut i: usize = 0;
        proof {
            assert(self.allowed().take(0) =~= Seq::<Seq<char>>::empty());
        }
        while i < self.allow_paths.len()
            invariant
                i <= self.allow_paths.len(),
                invocation.valid(),
                invocation@ == (InvocationView {
                    allow_paths: self.allowed().take(i as int),
                    ..self.starting_options()
                }),
            decreases self.allow_paths.len() - i,
        {
            invocation = invocation.allow_path(self.allow_paths[i].as_str());
            proof {
                assert(self.allowed().take(i as int).push(self.allow_paths@[i as int]@)
                    =~= self.allowed().take(i as int + 1));
            }
            i = i + 1;
        }
        proof {
            assert(self.allowed().take(self.allow_paths.len() as int) =~= self.allowed());
        }
        invocation
    }

    /// The directory that holds the contract sources.
    pub fn root(&self) -> (root: &str)
        ensures
            root@ == self.root_text(),
    {
        self.root.as_str()
    }

    /// The directory that the compiler writes to, relative to the root.
    pub fn output_dir(&self) -> (dir: &str)
        requires
            self.output_text() is Some,
        ensures
            dir@ == self.output_text().unwrap(),
    {
        match &self.output_dir {
            Some(dir) => dir.as_str(),
            None => "",
        }
    }

    /// The path of the artifact `name`: `root/output_dir/name`.
    pub fn artifact_path(&self, name: &str) -> (path: String)
        requires
            self.output_text() is Some,
        ensures
            path@ == self.artifact_path_text(name@),
    {
        let mut path = self.root.clone();
        path.append("/");
        path.append(self.output_dir());
        path.append("/");
        path.append(name);
        path
    }

    fn refused(&self, name: &str, fault: ArtifactFault) -> (error: ArtifactError)
        requires
            self.output_text() is Some,
        ensures
            error.path@ == self.artifact_path_text(name@),
            error.fault@ == fault@,
    {
        ArtifactError { path: self.artifact_path(name), fault }
    }

    /// The bytecode of the artifact `name`, from what reading
    /// `root/output_dir/name` gave: its contents decoded from hexadecimal
    /// text. A file that is missing, unreadable or not hexadecimal is refused,
    /// and the error names the path.
    pub fn load_bytecode(&self, name: &str, read: FileRead) -> (result: Result<
        Vec<u8>,
        ArtifactError,
    >)
        requires
            self.output_text() is Some,
        ensures
            match result {
                Ok(bytes) => loaded_bytecode(read@) == Ok::<Seq<u8>, ArtifactFaultView>(bytes@),
                Err(error) => loaded_bytecode(read@) == Err::<Seq<u8>, ArtifactFaultView>(
                    error.fault@,
                )
                    && error.path@ == self.artifact_path_text(name@),
            },
    {
        match read {
            FileRead::Missing => Err(self.refused(name, ArtifactFault::Missing)),
            FileRead::Unreadable { cause } => Err(
                self.refused(name, ArtifactFault::Unreadable { cause }),
            ),
            FileRead::Contents(contents) => match decode_bytecode(contents.as_slice()) {
                Ok(bytes) => Ok(bytes),
                Err(fault) => Err(self.refused(name, fault)),
            },
        }
    }

    /// The interface description of the artifact `name`, from what reading
    /// `root/output_dir/name` gave: the bytes of the file as they are.
    pub fn load_abi(&self, name: &str, read: FileRead) -> (result: Result<
        Vec<u8>,
        ArtifactError,
    >)
        requires
            self.output_text() is Some,
        ensures
            match result {
                Ok(bytes) => loaded_abi(read@) == Ok::<Seq<u8>, ArtifactFaultView>(bytes@),
                Err(error) => loaded_abi(read@) == Err::<Seq<u8>, ArtifactFaultView>(error.fault@)
                    && error.path@ == self.artifact_path_text(name@),
            },
    {
        match read {
            FileRead::Missing => Err(self.refused(name, ArtifactFault::Missing)),
            FileRead::Unreadable { cause } => Err(
                self.refused(name, ArtifactFault::Unreadable { cause }),
            ),
            FileRead::Contents(contents) => Ok(contents),
        }
    }
}

} // verus!
