use vstd::prelude::*;
use vstd::utf8::encode_utf8;

verus! {

/// The descriptor value held by a [`Stdio`] whose mode carries no descriptor.
pub const NO_FD: i32 = -1;

/// Which kind of redirection a [`Stdio`] asks for.
#[derive(Debug, Clone, Copy, PartialEq, Eq, Structural)]
pub enum StdioMode {
    /// Nothing chosen: the executor applies its own default policy.
    Unset,
    /// Connect the child's stream to an open descriptor of this process.
    InheritFd,
    /// Back the child's stream by an in-memory byte buffer.
    CapturedBytes,
}

/// The mathematical content of a [`Stdio`].
pub struct StdioView {
    pub mode: StdioMode,
    pub fd: i32,
    pub bytes: Seq<u8>,
}

/// Describes what to do with one standard I/O stream of a spawned child.
#[derive(Debug)]
pub struct Stdio {
    mode: StdioMode,
    fd: i32,
    bytes: Vec<u8>,
}

impl View for Stdio {
    type V = StdioView;

    closed spec fn view(&self) -> StdioView {
        StdioView { mode: self.mode, fd: self.fd, bytes: self.bytes@ }
    }
}

/// The content of a descriptor that asks for nothing in particular.
pub open spec fn unset_view() -> StdioView {
    StdioView { mode: StdioMode::Unset, fd: NO_FD, bytes: Seq::empty() }
}

/// The content of a descriptor that connects the stream to descriptor `fd`.
pub open spec fn inherit_view(fd: i32) -> StdioView {
    StdioView { mode: StdioMode::InheritFd, fd, bytes: Seq::empty() }
}

/// The content of a descriptor backed by the buffer `bytes`.
pub open spec fn captured_view(bytes: Seq<u8>) -> StdioView {
    StdioView { mode: StdioMode::CapturedBytes, fd: NO_FD, bytes }
}

/// Relies on libc::STDIN_FILENO, the descriptor number of standard input.
#[verifier::external_body]
fn stdin_fileno() -> (r: i32)
    ensures
        r == 0,
{
    libc::STDIN_FILENO
}

/// Relies on libc::STDOUT_FILENO, the descriptor number of standard output.
#[verifier::external_body]
fn stdout_fileno() -> (r: i32)
    ensures
        r == 1,
{
    libc::STDOUT_FILENO
}

/// Relies on libc::STDERR_FILENO, the descriptor number of standard error.
#[verifier::external_body]
fn stderr_fileno() -> (r: i32)
    ensures
        r == 2,
{
    libc::STDERR_FILENO
}

impl Stdio {
    /// Initial value: no redirection chosen, no descriptor, no bytes.
    pub fn initial() -> (r: Self)
        ensures
            r@ == unset_view(),
    {
        Stdio { mode: StdioMode::Unset, fd: NO_FD, bytes: Vec::new() }
    }

    /// Inherit the current process's stdout/stderr/stdin, whichever stream
    /// this value is used for; it names no descriptor itself.
    pub fn inherit() -> (r: Self)
        ensures
            r@ == inherit_view(NO_FD),
    {
        Stdio { mode: StdioMode::InheritFd, fd: NO_FD, bytes: Vec::new() }
    }

    /// Inherit the current process's standard output, descriptor 1.
    pub fn inherit_stdout() -> (r: Self)
        ensures
            r@ == inherit_view(1),
    {
        Stdio { mode: StdioMode::InheritFd, fd: stdout_fileno(), bytes: Vec::new() }
    }

    /// Inherit the current process's standard error, descriptor 2.
    pub fn inherit_stderr() -> (r: Self)
        ensures
            r@ == inherit_view(2),
    {
        Stdio { mode: StdioMode::InheritFd, fd: stderr_fileno(), bytes: Vec::new() }
    }

    /// Inherit the current process's standard input, descriptor 0.
    pub fn inherit_stdin() -> (r: Self)
        ensures
            r@ == inherit_view(0),
    {
        Stdio { mode: StdioMode::InheritFd, fd: stdin_fileno(), bytes: Vec::new() }
    }

    /// Feed or capture the stream through the UTF-8 encoding of `text`.
    pub fn from_text(text: &str) -> (r: Self)
        ensures
            r@ == captured_view(encode_utf8(text@)),
    {
        Stdio { mode: StdioMode::CapturedBytes, fd: NO_FD, bytes: text.as_bytes_vec() }
    }

    /// Feed or capture the stream through the buffer `bytes`, taken over as is.
    pub fn from_bytes(bytes: Vec<u8>) -> (r: Self)
        ensures
            r@ == captured_view(bytes@),
    {
        Stdio { mode: StdioMode::CapturedBytes, fd: NO_FD, bytes }
    }

    /// The redirection mode.
    pub fn mode(&self) -> (r: StdioMode)
        ensures
            r == self@.mode,
    {
        self.mode
    }

    /// The stored descriptor, whatever the mode; [`NO_FD`] unless the value
    /// came from a slot-specific inherit constructor.
    pub fn as_raw_fd(&self) -> (r: i32)
        ensures
            r == self@.fd,
    {
        self.fd
    }

    /// The stored bytes, whatever the mode; empty unless the mode is
    /// [`StdioMode::CapturedBytes`].
    pub fn as_bytes(&self) -> (r: &[u8])
        ensures
            r@ == self@.bytes,
    {
        self.bytes.as_slice()
    }
}

impl Default for Stdio {
    /// The same value as [`Stdio::initial`].
    fn default() -> (r: Self)
        ensures
            r@ == unset_view(),
    {
        Stdio::initial()
    }
}

impl Clone for Stdio {
    /// A deep copy: the buffer is copied, not shared.
    fn clone(&self) -> (r: Self)
        ensures
            r@ == self@,
    {
        Stdio { mode: self.mode, fd: self.fd, bytes: self.bytes.clone() }
    }
}

impl From<Vec<u8>> for Stdio {
    fn from(bytes: Vec<u8>) -> (r: Self)
        ensures
            r@ == captured_view(bytes@),
    {
        Stdio { mode: StdioMode::CapturedBytes, fd: NO_FD, bytes }
    }
}

impl vstd::std_specs::convert::FromSpecImpl<Vec<u8>> for Stdio {
    open spec fn obeys_from_spec() -> bool {
        true
    }

    closed spec fn from_spec(bytes: Vec<u8>) -> Stdio {
        Stdio { mode: StdioMode::CapturedBytes, fd: NO_FD, bytes }
    }
}

impl From<&str> for Stdio {
    fn from(text: &str) -> (r: Self)
        ensures
            r@ == captured_view(encode_utf8(text@)),
    {
        Stdio::from_text(text)
    }
}

/// The buffer built from a text is a fresh allocation that no spec value
/// names, so `from` on text is described by its view alone (see `from`).
impl vstd::std_specs::convert::FromSpecImpl<&str> for Stdio {
    open spec fn obeys_from_spec() -> bool {
        false
    }

    open spec fn from_spec(text: &str) -> Stdio {
        arbitrary()
    }
}

/// Reading back the bytes of a descriptor built from text gives exactly the
/// UTF-8 encoding of that text, and the descriptor captures bytes.
pub proof fn lemma_text_round_trip(text: Seq<char>)
    ensures
        captured_view(encode_utf8(text)).bytes == encode_utf8(text),
        captured_view(encode_utf8(text)).mode == StdioMode::CapturedBytes,
{
}

/// Reading back the bytes of a descriptor built from a byte buffer gives
/// that buffer unchanged.
pub proof fn lemma_bytes_round_trip(bytes: Seq<u8>)
    ensures
        captured_view(bytes).bytes == bytes,
        captured_view(bytes).mode == StdioMode::CapturedBytes,
{
}

/// The caller-facing inherit value names no descriptor: its descriptor is
/// [`NO_FD`], which differs from those of standard input, output and error.
pub proof fn lemma_inherit_is_slot_agnostic()
    ensures
        inherit_view(NO_FD).mode == StdioMode::InheritFd,
        inherit_view(NO_FD).fd == NO_FD,
        inherit_view(NO_FD).fd != inherit_view(0).fd,
        inherit_view(NO_FD).fd != inherit_view(1).fd,
        inherit_view(NO_FD).fd != inherit_view(2).fd,
{
}

} // verus!
