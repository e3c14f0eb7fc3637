use vstd::prelude::*;
use crate::memory::{Heap, Memory};
use crate::text::{push_signed, push_str, signed_decimal};

verus! {

/// The number a file is rooted at.
#[derive(Copy, Clone, Debug)]
pub struct Root(pub isize);

/// A named file rooted at some number.
#[derive(Copy, Clone, Debug)]
pub struct File<'a> {
    pub name: &'a str,
    pub ptr: Root,
}

/// A pair of files: one to send to, one to receive from.
#[derive(Copy, Clone, Debug)]
pub struct Io<'a, 'b> {
    pub send: File<'a>,
    pub recv: File<'b>,
}

/// A device and its input and output.
#[derive(Copy, Clone, Debug)]
pub struct Device<'a> {
    pub io: Io<'a, 'a>,
}

/// The three standard files of a console.
#[derive(Copy, Clone, Debug)]
pub struct Logger<'a> {
    pub stdout: File<'a>,
    pub stdin: File<'a>,
    pub stderr: File<'a>,
}

/// A device together with the memory it stores.
#[derive(Clone, Debug)]
pub struct Storage {
    pub device: Device<'static>,
    pub data: Memory,
}

/// A whole system: its root device, its storage and its console.
#[derive(Clone, Debug)]
pub struct System {
    pub root_device: Device<'static>,
    pub storage: Storage,
    pub console: Logger<'static>,
}

/// The stream a log line goes to.
#[derive(Copy, Clone, Debug, PartialEq, Eq, Structural)]
pub enum Stream {
    Stdout,
    Stderr,
}

/// How severe a log line is.
#[derive(Copy, Clone, Debug, PartialEq, Eq, Structural)]
pub enum Level {
    Info,
    Warn,
    Error,
}

/// A line for the console to write: `[name:ptr/level] text` on `stream`,
/// where `name` and `ptr` are those of `file`.
#[derive(Clone, Debug)]
pub struct LogLine<'a> {
    pub stream: Stream,
    pub file: File<'a>,
    pub level: Level,
    pub text: String,
}

/// The word a level is written as.
pub open spec fn level_word(l: Level) -> Seq<char> {
    match l {
        Level::Info => seq!['i', 'n', 'f', 'o'],
        Level::Warn => seq!['w', 'a', 'r', 'n'],
        Level::Error => seq!['e', 'r', 'r', 'o', 'r'],
    }
}

/// The text of a log line: `[name:ptr/level] text`.
pub open spec fn line_text(name: Seq<char>, ptr: isize, level: Level, text: Seq<char>) -> Seq<char> {
    seq!['['] + name + seq![':'] + signed_decimal(ptr as int) + seq!['/'] + level_word(level) + seq![']', ' ']
        + text
}

impl<'a> LogLine<'a> {
    /// The line as the console writes it.
    pub fn render(&self) -> (s: String)
        ensures
            s@ == line_text(self.file.name@, self.file.ptr.0, self.level, self.text@),
    {
        let mut s = String::new();
        push_str(&mut s, "[");
        push_str(&mut s, self.file.name);
        push_str(&mut s, ":");
        push_signed(&mut s, self.file.ptr.0);
        push_str(&mut s, "/");
        match self.level {
            Level::Info => push_str(&mut s, "info"),
            Level::Warn => push_str(&mut s, "warn"),
            Level::Error => push_str(&mut s, "error"),
        }
        push_str(&mut s, "] ");
        push_str(&mut s, self.text.as_str());
        proof {
            reveal_strlit("[");
            reveal_strlit(":");
            reveal_strlit("/");
            reveal_strlit("info");
            reveal_strlit("warn");
            reveal_strlit("error");
            reveal_strlit("] ");
        }
        assert(s@ =~= line_text(self.file.name@, self.file.ptr.0, self.level, self.text@));
        s
    }
}

/// A value made from nothing, by a fixed recipe.
pub trait Bootstrap: Sized {
    fn bootstrap() -> Self;
}

impl<'a> File<'a> {
    /// The file is called `name` and is rooted at 0.
    pub open spec fn is_std(self, name: Seq<char>) -> bool {
        self.name@ == name && self.ptr.0 == 0
    }

    pub fn res(name: &'a str, data: isize) -> (f: Self)
        ensures
            f.name == name,
            f.ptr.0 == data,
    {
        File { name: name, ptr: Root(data) }
    }

    pub fn stdout() -> (f: Self)
        ensures
            f.is_std("stdout"@),
    {
        File::res("stdout", 0)
    }

    pub fn stdin() -> (f: Self)
        ensures
            f.is_std("stdin"@),
    {
        File::res("stdin", 0)
    }

    pub fn stderr() -> (f: Self)
        ensures
            f.is_std("stderr"@),
    {
        File::res("stderr", 0)
    }
}

impl<'a, 'b> Io<'a, 'b> {
    /// Sends to standard output and receives from standard input.
    pub open spec fn is_console(self) -> bool {
        self.send.is_std("stdout"@) && self.recv.is_std("stdin"@)
    }
}

impl<'a, 'b> Bootstrap for Io<'a, 'b> {
    fn bootstrap() -> (r: Self)
        ensures
            r.is_console(),
    {
        Self { send: File::stdout(), recv: File::stdin() }
    }
}

impl<'a> Bootstrap for Device<'a> {
    fn bootstrap() -> (r: Self)
        ensures
            r.io.is_console(),
    {
        Self { io: Io::bootstrap() }
    }
}

impl Storage {
    /// A console device and an empty heap.
    pub open spec fn is_fresh(self) -> bool {
        &&& self.device.io.is_console()
        &&& self.data is Heap
        &&& self.data->Heap_0.0@ == Seq::<crate::memory::Page>::empty()
    }
}

impl<'a> Device<'a> {
    /// Storage on a console device, holding an empty heap.
    pub fn storage() -> (s: Storage)
        ensures
            s.is_fresh(),
    {
        Storage { device: Device::bootstrap(), data: Memory::Heap(Heap::new()) }
    }
}

impl<'a> Logger<'a> {
    /// Its files are standard output, input and error, in that order.
    pub open spec fn is_standard(self) -> bool {
        &&& self.stdout.is_std("stdout"@)
        &&& self.stdin.is_std("stdin"@)
        &&& self.stderr.is_std("stderr"@)
    }

    /// An information line for standard output.
    pub fn log(&self, x: &str) -> (l: LogLine<'a>)
        ensures
            l.stream == Stream::Stdout,
            l.file == self.stdout,
            l.level == Level::Info,
            l.text@ == x@,
    {
        LogLine { stream: Stream::Stdout, file: self.stdout, level: Level::Info, text: x.to_owned() }
    }

    /// A warning line for standard output.
    pub fn warn(&self, x: &str) -> (l: LogLine<'a>)
        ensures
            l.stream == Stream::Stdout,
            l.file == self.stdout,
            l.level == Level::Warn,
            l.text@ == x@,
    {
        LogLine { stream: Stream::Stdout, file: self.stdout, level: Level::Warn, text: x.to_owned() }
    }

    /// An error line for standard error.
    pub fn err(&self, x: &str) -> (l: LogLine<'a>)
        ensures
            l.stream == Stream::Stderr,
            l.file == self.stderr,
            l.level == Level::Error,
            l.text@ == x@,
    {
        LogLine { stream: Stream::Stderr, file: self.stderr, level: Level::Error, text: x.to_owned() }
    }
}

impl<'a> Bootstrap for Logger<'a> {
    fn bootstrap() -> (r: Self)
        ensures
            r.is_standard(),
    {
        Self { stdout: File::stdout(), stdin: File::stdin(), stderr: File::stderr() }
    }
}

impl Bootstrap for Storage {
    fn bootstrap() -> (r: Self)
        ensures
            r.is_fresh(),
    {
        Device::storage()
    }
}

impl System {
    /// A console root device, fresh storage and a standard console.
    pub open spec fn is_fresh(self) -> bool {
        &&& self.root_device.io.is_console()
        &&& self.storage.is_fresh()
        &&& self.console.is_standard()
    }

    pub fn new() -> (s: Self)
        ensures
            s.is_fresh(),
    {
        Self::bootstrap()
    }
}

impl Bootstrap for System {
    fn bootstrap() -> (r: Self)
        ensures
            r.is_fresh(),
    {
        Self { root_device: Device::bootstrap(), storage: Storage::bootstrap(), console: Logger::bootstrap() }
    }
}

} // verus!
