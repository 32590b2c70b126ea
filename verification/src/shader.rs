//! Compiling shaders and linking programs, as a protocol between this
//! library and the GPU driver.
//!
//! The library decides; the caller talks to the driver. `start` names the
//! first driver call of a job, and `step` takes what the driver answered and
//! names the next call, until the job succeeds or fails.

use vstd::prelude::*;
use vstd::std_specs::convert::FromSpecImpl;
use vstd::string::StringExecFns;

verus! {

/// A failure to obtain shader source text from storage.
#[derive(Clone, Debug, PartialEq, Eq)]
pub struct ResourceError {
    pub message: String,
}

/// What can go wrong on the way from shader source to a linked program.
#[derive(Debug, PartialEq, Eq)]
pub enum Error {
    /// Source text could not be loaded.
    ResourceLoad { inner: ResourceError },
    /// The driver rejected shader source; `message` is its log.
    CompileError { message: String },
    /// The driver could not link a program; `message` is its log.
    LinkError { message: String },
}

/// `Error` with its texts as sequences of characters.
pub enum ErrorView {
    ResourceLoad { inner: Seq<char> },
    CompileError { message: Seq<char> },
    LinkError { message: Seq<char> },
}

impl View for Error {
    type V = ErrorView;

    open spec fn view(&self) -> ErrorView {
        match *self {
            Error::ResourceLoad { inner } => ErrorView::ResourceLoad { inner: inner.message@ },
            Error::CompileError { message } => ErrorView::CompileError { message: message@ },
            Error::LinkError { message } => ErrorView::LinkError { message: message@ },
        }
    }
}

impl From<ResourceError> for Error {
    fn from(other: ResourceError) -> (r: Self) {
        Error::ResourceLoad { inner: other }
    }
}

impl FromSpecImpl<ResourceError> for Error {
    open spec fn obeys_from_spec() -> bool {
        true
    }

    open spec fn from_spec(other: ResourceError) -> Self {
        Error::ResourceLoad { inner: other }
    }
}

/// The stage a shader is written for.
#[derive(Clone, Copy, Debug, PartialEq, Eq, Structural)]
pub enum ShaderKind {
    Vertex,
    Fragment,
}

/// Reads `gl::VERTEX_SHADER`, the enumerant of the vertex stage: 0x8B31.
#[verifier::external_body]
fn gl_vertex_shader() -> (r: u32)
    ensures
        r == 0x8B31,
{
    gl::VERTEX_SHADER
}

/// Reads `gl::FRAGMENT_SHADER`, the enumerant of the fragment stage: 0x8B30.
#[verifier::external_body]
fn gl_fragment_shader() -> (r: u32)
    ensures
        r == 0x8B30,
{
    gl::FRAGMENT_SHADER
}

impl ShaderKind {
    /// The enumerant by which the driver knows the stage.
    pub open spec fn spec_gl_enum(self) -> u32 {
        match self {
            ShaderKind::Vertex => 0x8B31,
            ShaderKind::Fragment => 0x8B30,
        }
    }

    /// The enumerant by which the driver knows the stage.
    pub fn gl_enum(&self) -> (r: u32)
        ensures
            r == self.spec_gl_enum(),
    {
        match self {
            ShaderKind::Vertex => gl_vertex_shader(),
            ShaderKind::Fragment => gl_fragment_shader(),
        }
    }
}

/// Names the sources of a program's two shaders.
pub trait ShaderSource {
    /// Name of the fragment shader's source.
    spec fn fragment_name(&self) -> Seq<char>;

    /// Name of the vertex shader's source.
    spec fn vertex_name(&self) -> Seq<char>;

    fn fragment_shader(&self) -> (r: &String)
        ensures
            r@ == self.fragment_name(),
    ;

    fn vertex_shader(&self) -> (r: &String)
        ensures
            r@ == self.vertex_name(),
    ;
}

/// The names of a vertex and a fragment shader source.
pub struct ShaderCollection {
    fragment: String,
    vertex: String,
}

impl ShaderCollection {
    /// A collection of the two given names.
    pub fn from_all(vertex: &str, fragment: &str) -> (r: ShaderCollection)
        ensures
            r.vertex_name() == vertex@,
            r.fragment_name() == fragment@,
    {
        ShaderCollection { fragment: String::from_str(fragment), vertex: String::from_str(vertex) }
    }

    /// A collection whose sources share a prefix: `prefix.vert` and
    /// `prefix.frag`.
    pub fn from_simple(prefix: &str) -> (r: ShaderCollection)
        ensures
            r.vertex_name() == prefix@ + ".vert"@,
            r.fragment_name() == prefix@ + ".frag"@,
    {
        let vert = String::from_str(prefix).concat(".vert");
        let frag = String::from_str(prefix).concat(".frag");
        ShaderCollection { fragment: frag, vertex: vert }
    }
}

impl ShaderSource for ShaderCollection {
    closed spec fn fragment_name(&self) -> Seq<char> {
        self.fragment@
    }

    closed spec fn vertex_name(&self) -> Seq<char> {
        self.vertex@
    }

    fn fragment_shader(&self) -> (r: &String) {
        &self.fragment
    }

    fn vertex_shader(&self) -> (r: &String) {
        &self.vertex
    }
}

/// One shader of a program: where its source comes from and its stage.
#[derive(Clone, Debug, PartialEq, Eq)]
pub struct SourceRequest {
    pub name: String,
    pub kind: ShaderKind,
}

/// The shaders that make up the program of `collection`, in the order in
/// which they are loaded, compiled and attached: vertex, then fragment.
pub fn program_sources<I: ShaderSource>(collection: &I) -> (r: Vec<SourceRequest>)
    ensures
        r@.len() == 2,
        r@[0].name@ == collection.vertex_name(),
        r@[0].kind == ShaderKind::Vertex,
        r@[1].name@ == collection.fragment_name(),
        r@[1].kind == ShaderKind::Fragment,
{
    let mut names: Vec<SourceRequest> = Vec::new();
    names.push(SourceRequest { name: collection.vertex_shader().clone(), kind: ShaderKind::Vertex });
    names.push(
        SourceRequest { name: collection.fragment_shader().clone(), kind: ShaderKind::Fragment },
    );
    names
}

/// The byte of a space character.
pub const SPACE: u8 = 32;

/// `len` spaces.
pub open spec fn whitespace(len: int) -> Seq<u8> {
    Seq::new(len as nat, |i: int| SPACE)
}

/// A buffer of `len` spaces, for the driver to write a log into.
pub fn create_whitespace_buffer_with_len(len: usize) -> (buffer: Vec<u8>)
    ensures
        buffer@ == whitespace(len as int),
{
    let mut buffer: Vec<u8> = Vec::new();
    let mut i: usize = 0;
    while i < len
        invariant
            0 <= i <= len,
            buffer@ == whitespace(i as int),
        decreases len - i,
    {
        buffer.push(SPACE);
        assert(buffer@ =~= whitespace(i as int + 1));
        i += 1;
    }
    buffer
}

/// The index of the first zero byte of `bytes` at or after `i`, or the length
/// where there is none.
pub open spec fn first_zero_from(bytes: Seq<u8>, i: int) -> int
    decreases bytes.len() - i,
{
    if i < 0 || i >= bytes.len() || bytes[i] == 0 {
        i
    } else {
        first_zero_from(bytes, i + 1)
    }
}

/// The text of a log buffer as the driver left it: the bytes before the
/// first zero byte, the terminator that the driver writes; all of them where
/// there is none.
pub open spec fn log_text(bytes: Seq<u8>) -> Seq<u8> {
    bytes.take(first_zero_from(bytes, 0))
}

/// The text of a log buffer: its bytes before the first zero byte.
pub fn log_text_of(bytes: &Vec<u8>) -> (text: Vec<u8>)
    ensures
        text@ == log_text(bytes@),
{
    let mut text: Vec<u8> = Vec::new();
    let mut i: usize = 0;
    while i < bytes.len() && bytes[i] != 0
        invariant
            0 <= i <= bytes.len(),
            first_zero_from(bytes@, 0) == first_zero_from(bytes@, i as int),
            text@ == bytes@.take(i as int),
        decreases bytes.len() - i,
    {
        text.push(bytes[i]);
        assert(text@ =~= bytes@.take(i as int + 1));
        i += 1;
    }
    text
}

/// In the text of a log there is no zero byte, and the text ends at the
/// buffer's first zero byte or at its end.
pub proof fn lemma_log_text(bytes: Seq<u8>)
    ensures
        log_text(bytes).len() <= bytes.len(),
        forall|j: int| 0 <= j < log_text(bytes).len() ==> #[trigger] log_text(bytes)[j] != 0,
        log_text(bytes).len() == bytes.len() || bytes[log_text(bytes).len() as int] == 0,
{
    lemma_first_zero_from(bytes, 0);
}

/// No byte from `i` up to the first zero at or after `i` is zero.
pub proof fn lemma_first_zero_from(bytes: Seq<u8>, i: int)
    requires
        0 <= i <= bytes.len(),
    ensures
        i <= first_zero_from(bytes, i) <= bytes.len(),
        forall|j: int| i <= j < first_zero_from(bytes, i) ==> #[trigger] bytes[j] != 0,
        first_zero_from(bytes, i) == bytes.len() || bytes[first_zero_from(bytes, i)] == 0,
    decreases bytes.len() - i,
{
    if i < bytes.len() && bytes[i] != 0 {
        lemma_first_zero_from(bytes, i + 1);
    }
}

/// The text that the bytes of a log stand for, with whatever is not valid
/// UTF-8 replaced: the result of `String::from_utf8_lossy`.
pub uninterp spec fn utf8_lossy(bytes: Seq<u8>) -> Seq<char>;

/// Calls `String::from_utf8_lossy` and takes ownership of the text: the
/// result is that function's result on these bytes.
#[verifier::external_body]
fn decode_lossy(bytes: &Vec<u8>) -> (text: String)
    ensures
        text@ == utf8_lossy(bytes@),
{
    String::from_utf8_lossy(bytes).into_owned()
}

/// The class of GPU object that a job builds.
#[derive(Clone, Copy, Debug, PartialEq, Eq, Structural)]
pub enum Target {
    Shader,
    Program,
}

/// What is to be built.
#[derive(Clone, Debug, PartialEq, Eq)]
pub enum Job {
    /// Compile one shader of the given kind from its source text.
    Compile { kind: ShaderKind },
    /// Link the compiled shaders with these ids, in this order.
    Link { shaders: Vec<u32> },
}

impl Job {
    /// The class of object that the job builds.
    pub open spec fn target(self) -> Target {
        match self {
            Job::Compile { .. } => Target::Shader,
            Job::Link { .. } => Target::Program,
        }
    }

    /// The shaders to attach: none for a compile job.
    pub open spec fn shaders(self) -> Seq<u32> {
        match self {
            Job::Compile { .. } => Seq::empty(),
            Job::Link { shaders } => shaders@,
        }
    }
}

/// Where a job stands: which driver call is under way.
#[derive(Clone, Copy, Debug, PartialEq, Eq, Structural)]
pub enum State {
    /// The object is being created.
    Creating,
    /// `next` shaders have been handed to program `id` for attaching.
    Attaching { id: u32, next: usize },
    /// Object `id` is being compiled or linked, and its status read.
    Checking { id: u32 },
    /// The length of the log of object `id` is being read.
    Measuring { id: u32 },
    /// The log of object `id` is being read.
    Reading { id: u32 },
    /// `next` shaders have been handed to program `id` for detaching.
    Detaching { id: u32, next: usize },
    /// The job is over.
    Finished,
}

/// What the driver answered to a command.
#[derive(Clone, Debug, PartialEq, Eq)]
pub enum Reply {
    /// The id of a new object.
    Id(u32),
    /// A status flag or a length.
    Value(i32),
    /// The log buffer as the driver left it.
    Log(Vec<u8>),
    /// The call returned nothing.
    Done,
}

/// The next thing for the caller to do.
#[derive(Debug, PartialEq, Eq)]
pub enum Command {
    /// Create a shader object of this kind; answer with `Reply::Id`.
    CreateShader { kind: ShaderKind },
    /// Upload the source to the shader, compile it and read its compile
    /// status; answer with `Reply::Value`.
    CompileShader { shader: u32 },
    /// Create a program object; answer with `Reply::Id`.
    CreateProgram,
    /// Attach the shader to the program; answer with `Reply::Done`.
    AttachShader { program: u32, shader: u32 },
    /// Link the program and read its link status; answer with
    /// `Reply::Value`.
    LinkProgram { program: u32 },
    /// Detach the shader from the program, without deleting it; answer with
    /// `Reply::Done`.
    DetachShader { program: u32, shader: u32 },
    /// Read the length of the object's log; answer with `Reply::Value`.
    GetInfoLogLength { target: Target, id: u32 },
    /// Let the driver write at most `len` bytes of the object's log into
    /// `buffer`; answer with `Reply::Log`.
    GetInfoLog { target: Target, id: u32, len: i32, buffer: Vec<u8> },
    /// Make the call that `cleanup` names for this object, which deletes it,
    /// and report the error. The job is over.
    Fail { target: Target, id: u32, error: Error },
    /// The object is built. The job is over.
    Succeed { id: u32 },
}

/// `Command` with its buffer and its error by their views.
pub enum CommandView {
    CreateShader { kind: ShaderKind },
    CompileShader { shader: u32 },
    CreateProgram,
    AttachShader { program: u32, shader: u32 },
    LinkProgram { program: u32 },
    DetachShader { program: u32, shader: u32 },
    GetInfoLogLength { target: Target, id: u32 },
    GetInfoLog { target: Target, id: u32, len: i32, buffer: Seq<u8> },
    Fail { target: Target, id: u32, error: ErrorView },
    Succeed { id: u32 },
}

impl View for Command {
    type V = CommandView;

    open spec fn view(&self) -> CommandView {
        match *self {
            Command::CreateShader { kind } => CommandView::CreateShader { kind },
            Command::CompileShader { shader } => CommandView::CompileShader { shader },
            Command::CreateProgram => CommandView::CreateProgram,
            Command::AttachShader { program, shader } => CommandView::AttachShader {
                program,
                shader,
            },
            Command::LinkProgram { program } => CommandView::LinkProgram { program },
            Command::DetachShader { program, shader } => CommandView::DetachShader {
                program,
                shader,
            },
            Command::GetInfoLogLength { target, id } => CommandView::GetInfoLogLength {
                target,
                id,
            },
            Command::GetInfoLog { target, id, len, buffer } => CommandView::GetInfoLog {
                target,
                id,
                len,
                buffer: buffer@,
            },
            Command::Fail { target, id, error } => CommandView::Fail { target, id, error: error@ },
            Command::Succeed { id } => CommandView::Succeed { id },
        }
    }
}

/// The error that a failed build of `target` reports with this log text.
pub open spec fn failure_error(target: Target, message: Seq<char>) -> ErrorView {
    match target {
        Target::Shader => ErrorView::CompileError { message },
        Target::Program => ErrorView::LinkError { message },
    }
}

/// The first state and command of a job: create the object.
pub open spec fn first_move(job: Job) -> (State, CommandView) {
    match job {
        Job::Compile { kind } => (State::Creating, CommandView::CreateShader { kind }),
        Job::Link { .. } => (State::Creating, CommandView::CreateProgram),
    }
}

/// What follows once `next` shaders are attached to program `id`: attach the
/// next one, or link.
pub open spec fn attach_move(shaders: Seq<u32>, id: u32, next: int) -> (State, CommandView) {
    if next < shaders.len() {
        (
            State::Attaching { id, next: (next + 1) as usize },
            CommandView::AttachShader { program: id, shader: shaders[next] },
        )
    } else {
        (State::Checking { id }, CommandView::LinkProgram { program: id })
    }
}

/// What follows once `next` shaders are detached from the linked program
/// `id`: detach the next one, or finish.
pub open spec fn detach_move(shaders: Seq<u32>, id: u32, next: int) -> (State, CommandView) {
    if next < shaders.len() {
        (
            State::Detaching { id, next: (next + 1) as usize },
            CommandView::DetachShader { program: id, shader: shaders[next] },
        )
    } else {
        (State::Finished, CommandView::Succeed { id })
    }
}

/// Whether `reply` answers the command that led to `state`. A status of
/// any value is taken; a log length is never negative.
pub open spec fn expects(job: Job, state: State, reply: Reply) -> bool {
    match state {
        State::Creating => reply is Id,
        State::Attaching { next, .. } => reply is Done && job is Link && 1 <= next
            <= job.shaders().len(),
        State::Checking { .. } => reply is Value,
        State::Measuring { .. } => reply matches Reply::Value(len) && len >= 0,
        State::Reading { .. } => reply is Log,
        State::Detaching { next, .. } => reply is Done && job is Link && 1 <= next
            <= job.shaders().len(),
        State::Finished => false,
    }
}

/// The state and command that follow `state` when the driver answers
/// `reply`, which the state expects.
///
/// A status of zero means failure: the log is measured, read into a buffer
/// of exactly that many spaces, and its text, the bytes before the driver's
/// terminator, reported, the object deleted. Any other
/// status means success: a shader is done; a program has its shaders
/// detached first.
pub open spec fn next_move(job: Job, state: State, reply: Reply) -> (State, CommandView) {
    match state {
        State::Creating => match job {
            Job::Compile { .. } => (
                State::Checking { id: reply->Id_0 },
                CommandView::CompileShader { shader: reply->Id_0 },
            ),
            Job::Link { shaders } => attach_move(shaders@, reply->Id_0, 0),
        },
        State::Attaching { id, next } => attach_move(job.shaders(), id, next as int),
        State::Checking { id } => if reply->Value_0 == 0 {
            (State::Measuring { id }, CommandView::GetInfoLogLength { target: job.target(), id })
        } else {
            detach_move(job.shaders(), id, 0)
        },
        State::Measuring { id } => (
            State::Reading { id },
            CommandView::GetInfoLog {
                target: job.target(),
                id,
                len: reply->Value_0,
                buffer: whitespace(reply->Value_0 as int),
            },
        ),
        State::Reading { id } => (
            State::Finished,
            CommandView::Fail {
                target: job.target(),
                id,
                error: failure_error(job.target(), utf8_lossy(log_text(reply->Log_0@))),
            },
        ),
        State::Detaching { id, next } => detach_move(job.shaders(), id, next as int),
        State::Finished => arbitrary(),
    }
}

/// An upper bound on the driver calls that a job still needs from `state`.
pub open spec fn calls_left(job: Job, state: State) -> int {
    let n = job.shaders().len() as int;
    match state {
        State::Creating => 2 * n + 5,
        State::Attaching { next, .. } => 2 * n + 5 - next,
        State::Checking { .. } => n + 4,
        State::Measuring { .. } => 3,
        State::Reading { .. } => 2,
        State::Detaching { next, .. } => n + 1 - next,
        State::Finished => 0,
    }
}

/// The class of object that the job builds.
pub fn target_of(job: &Job) -> (r: Target)
    ensures
        r == job.target(),
{
    match job {
        Job::Compile { .. } => Target::Shader,
        Job::Link { .. } => Target::Program,
    }
}

/// The driver call that deletes object `id` after a failed build: a shader
/// for a compile job, a program for a link job.
pub open spec fn spec_cleanup(target: Target, id: u32) -> ObjectCall {
    match target {
        Target::Shader => ObjectCall::DeleteShader { shader: id },
        Target::Program => ObjectCall::DeleteProgram { program: id },
    }
}

/// The driver call that deletes object `id` after a failed build.
pub fn cleanup(target: Target, id: u32) -> (r: ObjectCall)
    ensures
        r == spec_cleanup(target, id),
{
    match target {
        Target::Shader => ObjectCall::DeleteShader { shader: id },
        Target::Program => ObjectCall::DeleteProgram { program: id },
    }
}

/// The command that ends a failed build of object `id`: delete it and report
/// `message` as a compile error for a shader, a link error for a program.
pub fn failure(target: Target, id: u32, message: String) -> (r: Command)
    ensures
        r@ == (CommandView::Fail { target, id, error: failure_error(target, message@) }),
{
    let error = match target {
        Target::Shader => Error::CompileError { message },
        Target::Program => Error::LinkError { message },
    };
    Command::Fail { target, id, error }
}

/// Begins a job: the object is to be created.
pub fn start(job: &Job) -> (r: (State, Command))
    ensures
        (r.0, r.1@) == first_move(*job),
{
    match job {
        Job::Compile { kind } => (State::Creating, Command::CreateShader { kind: *kind }),
        Job::Link { .. } => (State::Creating, Command::CreateProgram),
    }
}

fn attach_next(shaders: &Vec<u32>, id: u32, next: usize) -> (r: (State, Command))
    requires
        next <= shaders.len(),
    ensures
        (r.0, r.1@) == attach_move(shaders@, id, next as int),
        r.0 matches State::Attaching { next: m, .. } ==> m == next + 1,
{
    if next < shaders.len() {
        (
            State::Attaching { id, next: next + 1 },
            Command::AttachShader { program: id, shader: shaders[next] },
        )
    } else {
        (State::Checking { id }, Command::LinkProgram { program: id })
    }
}

fn detach_next(shaders: &Vec<u32>, id: u32, next: usize) -> (r: (State, Command))
    requires
        next <= shaders.len(),
    ensures
        (r.0, r.1@) == detach_move(shaders@, id, next as int),
        r.0 matches State::Detaching { next: m, .. } ==> m == next + 1,
{
    if next < shaders.len() {
        (
            State::Detaching { id, next: next + 1 },
            Command::DetachShader { program: id, shader: shaders[next] },
        )
    } else {
        (State::Finished, Command::Succeed { id })
    }
}

/// A driver call on a finished shader or program.
#[derive(Clone, Copy, Debug, PartialEq, Eq, Structural)]
pub enum ObjectCall {
    /// Make the program the active one for the draw calls that follow.
    UseProgram { program: u32 },
    /// Delete the shader object.
    DeleteShader { shader: u32 },
    /// Delete the program object.
    DeleteProgram { program: u32 },
}

/// A compiled shader. The value is the only handle to its GPU object: it
/// cannot be copied, and `release` uses it up.
#[derive(Debug)]
pub struct Shader {
    id: u32,
    kind: ShaderKind,
}

impl Shader {
    /// The id of the GPU object.
    pub closed spec fn spec_id(&self) -> u32 {
        self.id
    }

    /// The stage the shader was compiled for.
    pub closed spec fn spec_kind(&self) -> ShaderKind {
        self.kind
    }

    /// The job that compiles a shader of `kind`.
    pub fn from_source(kind: ShaderKind) -> (job: Job)
        ensures
            job matches Job::Compile { kind: k } && k == kind,
    {
        Job::Compile { kind }
    }

    /// The job that compiles a vertex shader.
    pub fn from_vertex_source() -> (job: Job)
        ensures
            job matches Job::Compile { kind: k } && k == ShaderKind::Vertex,
    {
        Shader::from_source(ShaderKind::Vertex)
    }

    /// The job that compiles a fragment shader.
    pub fn from_fragment_source() -> (job: Job)
        ensures
            job matches Job::Compile { kind: k } && k == ShaderKind::Fragment,
    {
        Shader::from_source(ShaderKind::Fragment)
    }

    /// Takes charge of the shader object `id` that a compile job of `kind`
    /// succeeded with.
    pub fn new(id: u32, kind: ShaderKind) -> (r: Shader)
        ensures
            r.spec_id() == id,
            r.spec_kind() == kind,
    {
        Shader { id, kind }
    }

    /// The id of the GPU object.
    pub fn id(&self) -> (r: u32)
        ensures
            r == self.spec_id(),
    {
        self.id
    }

    /// The stage the shader was compiled for.
    pub fn kind(&self) -> (r: ShaderKind)
        ensures
            r == self.spec_kind(),
    {
        self.kind
    }

    /// Gives the shader up: its object is to be deleted.
    pub fn release(self) -> (r: ObjectCall)
        ensures
            r == (ObjectCall::DeleteShader { shader: self.spec_id() }),
    {
        ObjectCall::DeleteShader { shader: self.id }
    }
}

/// The ids of `shaders`, in order.
pub open spec fn shader_ids(shaders: Seq<Shader>) -> Seq<u32> {
    Seq::new(shaders.len(), |i: int| shaders[i].spec_id())
}

/// A linked program. The value is the only handle to its GPU object: it
/// cannot be copied, and `release` uses it up.
#[derive(Debug)]
pub struct Program {
    id: u32,
}

impl Program {
    /// The id of the GPU object.
    pub closed spec fn spec_id(&self) -> u32 {
        self.id
    }

    /// The job that links `shaders`, in this order, into a program. The
    /// shaders stay with the caller.
    pub fn from_shaders(shaders: &[Shader]) -> (job: Job)
        ensures
            job matches Job::Link { shaders: ids } && ids@ == shader_ids(shaders@),
    {
        let mut ids: Vec<u32> = Vec::new();
        let mut i: usize = 0;
        while i < shaders.len()
            invariant
                0 <= i <= shaders.len(),
                ids@ == shader_ids(shaders@.take(i as int)),
            decreases shaders.len() - i,
        {
            ids.push(shaders[i].id());
            assert(ids@ =~= shader_ids(shaders@.take(i as int + 1)));
            i += 1;
        }
        assert(shaders@.take(i as int) =~= shaders@);
        Job::Link { shaders: ids }
    }

    /// Takes charge of the program object `id` that a link job succeeded
    /// with.
    pub fn new(id: u32) -> (r: Program)
        ensures
            r.spec_id() == id,
    {
        Program { id }
    }

    /// The id of the GPU object.
    pub fn id(&self) -> (r: u32)
        ensures
            r == self.spec_id(),
    {
        self.id
    }

    /// The call that makes this program the active one.
    pub fn set_used(&self) -> (r: ObjectCall)
        ensures
            r == (ObjectCall::UseProgram { program: self.spec_id() }),
    {
        ObjectCall::UseProgram { program: self.id }
    }

    /// Gives the program up: its object is to be deleted.
    pub fn release(self) -> (r: ObjectCall)
        ensures
            r == (ObjectCall::DeleteProgram { program: self.spec_id() }),
    {
        ObjectCall::DeleteProgram { program: self.id }
    }
}

/// Whether `reply` answers the command that led to `state`.
pub fn accepts(job: &Job, state: State, reply: &Reply) -> (r: bool)
    ensures
        r == expects(*job, state, *reply),
{
    match state {
        State::Creating => match reply {
            Reply::Id(_) => true,
            _ => false,
        },
        State::Attaching { next, .. } | State::Detaching { next, .. } => match (job, reply) {
            (Job::Link { shaders }, Reply::Done) => 1 <= next && next <= shaders.len(),
            _ => false,
        },
        State::Checking { .. } => match reply {
            Reply::Value(_) => true,
            _ => false,
        },
        State::Measuring { .. } => match reply {
            Reply::Value(len) => *len >= 0,
            _ => false,
        },
        State::Reading { .. } => match reply {
            Reply::Log(_) => true,
            _ => false,
        },
        State::Finished => false,
    }
}

/// Takes the driver's answer and names the next state and command, or
/// nothing where the answer is none that the state expects. Each step brings
/// the job nearer to its end.
pub fn step(job: &Job, state: State, reply: Reply) -> (r: Option<(State, Command)>)
    ensures
        match r {
            Some((next, command)) => {
                &&& expects(*job, state, reply)
                &&& (next, command@) == next_move(*job, state, reply)
                &&& 0 <= calls_left(*job, next) < calls_left(*job, state)
            },
            None => !expects(*job, state, reply),
        },
{
    if !accepts(job, state, &reply) {
        return None;
    }
    match (state, reply, job) {
        (State::Creating, Reply::Id(id), Job::Compile { .. }) => Some(
            (State::Checking { id }, Command::CompileShader { shader: id }),
        ),
        (State::Creating, Reply::Id(id), Job::Link { shaders }) => Some(
            attach_next(shaders, id, 0),
        ),
        (State::Attaching { id, next }, Reply::Done, Job::Link { shaders }) => Some(
            attach_next(shaders, id, next),
        ),
        (State::Checking { id }, Reply::Value(status), _) => if status == 0 {
            Some(
                (State::Measuring { id }, Command::GetInfoLogLength { target: target_of(job), id }),
            )
        } else {
            match job {
                Job::Link { shaders } => Some(detach_next(shaders, id, 0)),
                Job::Compile { .. } => Some((State::Finished, Command::Succeed { id })),
            }
        },
        (State::Measuring { id }, Reply::Value(len), _) => {
            let buffer = create_whitespace_buffer_with_len(len as usize);
            Some(
                (
                    State::Reading { id },
                    Command::GetInfoLog { target: target_of(job), id, len, buffer },
                ),
            )
        },
        (State::Reading { id }, Reply::Log(bytes), _) => {
            let text = log_text_of(&bytes);
            let message = decode_lossy(&text);
            Some((State::Finished, failure(target_of(job), id, message)))
        },
        (State::Detaching { id, next }, Reply::Done, Job::Link { shaders }) => Some(
            detach_next(shaders, id, next),
        ),
        _ => None,
    }
}

/// The commands that a job issues from `state` on while the driver gives
/// `replies` one after the other. The list ends where the replies end, or
/// before a reply that the state does not expect.
pub open spec fn commands(job: Job, state: State, replies: Seq<Reply>) -> Seq<CommandView>
    decreases replies.len(),
{
    if replies.len() == 0 || !expects(job, state, replies[0]) {
        Seq::empty()
    } else {
        seq![next_move(job, state, replies[0]).1] + commands(
            job,
            next_move(job, state, replies[0]).0,
            replies.skip(1),
        )
    }
}

/// `n` replies of a call that returns nothing.
pub open spec fn dones(n: int) -> Seq<Reply> {
    Seq::new(n as nat, |i: int| Reply::Done)
}

/// The commands that attach the shaders from the `k`th on to program `id`.
pub open spec fn attaches(shaders: Seq<u32>, id: u32, k: int) -> Seq<CommandView> {
    Seq::new(
        (shaders.len() - k) as nat,
        |i: int| CommandView::AttachShader { program: id, shader: shaders[k + i] },
    )
}

/// The commands that detach the shaders from the `k`th on from program `id`.
pub open spec fn detaches(shaders: Seq<u32>, id: u32, k: int) -> Seq<CommandView> {
    Seq::new(
        (shaders.len() - k) as nat,
        |i: int| CommandView::DetachShader { program: id, shader: shaders[k + i] },
    )
}

/// The commands by which a failed build of object `id` ends: measure the
/// log, read it into exactly that many spaces, delete the object and report
/// the text before the log's terminator.
pub open spec fn failure_commands(target: Target, id: u32, len: i32, log: Seq<u8>) -> Seq<
    CommandView,
> {
    seq![
        CommandView::GetInfoLogLength { target, id },
        CommandView::GetInfoLog { target, id, len, buffer: whitespace(len as int) },
        CommandView::Fail { target, id, error: failure_error(target, utf8_lossy(log_text(log))) },
    ]
}

/// A shader whose compile status is not zero is handed out after two driver
/// calls: create, compile.
pub proof fn lemma_compile_success(job: Job, id: u32, status: i32)
    requires
        job is Compile,
        status != 0,
    ensures
        first_move(job).1 == (CommandView::CreateShader { kind: job->kind }),
        commands(job, first_move(job).0, seq![Reply::Id(id), Reply::Value(status)]) == seq![
            CommandView::CompileShader { shader: id },
            CommandView::Succeed { id },
        ],
{
    let replies = seq![Reply::Id(id), Reply::Value(status)];
    let rest = replies.skip(1);
    assert(rest[0] == Reply::Value(status));
    assert(rest.skip(1).len() == 0);
    reveal_with_fuel(commands, 3);
    assert(commands(job, State::Creating, replies) =~= seq![
        CommandView::CompileShader { shader: id },
        CommandView::Succeed { id },
    ]);
}

/// A shader whose compile status is zero is never handed out: its log is
/// read, the shader is deleted, and the log's text is the compile error.
pub proof fn lemma_compile_failure(job: Job, id: u32, len: i32, log: Vec<u8>)
    requires
        job is Compile,
        len >= 0,
    ensures
        commands(
            job,
            first_move(job).0,
            seq![Reply::Id(id), Reply::Value(0), Reply::Value(len), Reply::Log(log)],
        ) == seq![CommandView::CompileShader { shader: id }] + failure_commands(
            Target::Shader,
            id,
            len,
            log@,
        ),
{
    let replies = seq![Reply::Id(id), Reply::Value(0), Reply::Value(len), Reply::Log(log)];
    lemma_failure_tail(job, id, len, log);
    assert(replies.skip(1) =~= seq![Reply::Value(0), Reply::Value(len), Reply::Log(log)]);
    assert(commands(job, State::Creating, replies) =~= seq![
        CommandView::CompileShader { shader: id },
    ] + failure_commands(Target::Shader, id, len, log@));
}

/// From the moment the status of object `id` is read as zero, the job ends
/// with the commands of a failed build.
pub proof fn lemma_failure_tail(job: Job, id: u32, len: i32, log: Vec<u8>)
    requires
        len >= 0,
    ensures
        commands(
            job,
            State::Checking { id },
            seq![Reply::Value(0), Reply::Value(len), Reply::Log(log)],
        ) == failure_commands(job.target(), id, len, log@),
{
    let replies = seq![Reply::Value(0), Reply::Value(len), Reply::Log(log)];
    let r1 = replies.skip(1);
    let r2 = r1.skip(1);
    assert(r1[0] == Reply::Value(len));
    assert(r2[0] == Reply::Log(log));
    assert(r2.skip(1).len() == 0);
    reveal_with_fuel(commands, 4);
    assert(commands(job, State::Checking { id }, replies) =~= failure_commands(
        job.target(),
        id,
        len,
        log@,
    ));
}

/// Once `k` shaders are attached, the rest are attached in order, one per
/// driver call, and then the program is linked.
pub proof fn lemma_attach_rest(job: Job, id: u32, k: int, rest: Seq<Reply>)
    requires
        job is Link,
        0 <= k <= job.shaders().len() <= usize::MAX,
    ensures
        seq![attach_move(job.shaders(), id, k).1] + commands(
            job,
            attach_move(job.shaders(), id, k).0,
            dones(job.shaders().len() - k) + rest,
        ) == attaches(job.shaders(), id, k) + seq![CommandView::LinkProgram { program: id }]
            + commands(job, State::Checking { id }, rest),
    decreases job.shaders().len() - k,
{
    let shaders = job.shaders();
    let n = shaders.len() as int;
    let replies = dones(n - k) + rest;
    let link = seq![CommandView::LinkProgram { program: id }];
    if k == n {
        assert(replies =~= rest);
        assert(attaches(shaders, id, k) + link =~= link);
    } else {
        let state = State::Attaching { id, next: (k + 1) as usize };
        assert(replies[0] == Reply::Done);
        assert(replies.skip(1) =~= dones(n - (k + 1)) + rest);
        assert(next_move(job, state, replies[0]) == attach_move(shaders, id, k + 1));
        lemma_attach_rest(job, id, k + 1, rest);
        let first = seq![CommandView::AttachShader { program: id, shader: shaders[k] }];
        assert(first + attaches(shaders, id, k + 1) =~= attaches(shaders, id, k));
        assert(first + (attaches(shaders, id, k + 1) + link + commands(
            job,
            State::Checking { id },
            rest,
        )) =~= attaches(shaders, id, k) + link + commands(job, State::Checking { id }, rest));
    }
}

/// Once `k` shaders are detached from a linked program, the rest are
/// detached in order, one per driver call, and then the program is handed
/// out.
pub proof fn lemma_detach_rest(job: Job, id: u32, k: int)
    requires
        job is Link,
        0 <= k <= job.shaders().len() <= usize::MAX,
    ensures
        seq![detach_move(job.shaders(), id, k).1] + commands(
            job,
            detach_move(job.shaders(), id, k).0,
            dones(job.shaders().len() - k),
        ) == detaches(job.shaders(), id, k) + seq![CommandView::Succeed { id }],
    decreases job.shaders().len() - k,
{
    let shaders = job.shaders();
    let n = shaders.len() as int;
    let replies = dones(n - k);
    let end = seq![CommandView::Succeed { id }];
    if k == n {
        assert(detaches(shaders, id, k) + end =~= end);
        assert(end + commands(job, State::Finished, replies) =~= end);
    } else {
        let state = State::Detaching { id, next: (k + 1) as usize };
        assert(replies[0] == Reply::Done);
        assert(replies.skip(1) =~= dones(n - (k + 1)));
        assert(next_move(job, state, replies[0]) == detach_move(shaders, id, k + 1));
        lemma_detach_rest(job, id, k + 1);
        let first = seq![CommandView::DetachShader { program: id, shader: shaders[k] }];
        assert(first + detaches(shaders, id, k + 1) =~= detaches(shaders, id, k));
        assert(first + (detaches(shaders, id, k + 1) + end) =~= detaches(shaders, id, k) + end);
    }
}

/// Linking that succeeds: after the program is created, every shader is
/// attached, in order; the program is linked; every shader is detached, in
/// order, and none is deleted; the program is handed out.
pub proof fn lemma_link_success(job: Job, id: u32, status: i32)
    requires
        job is Link,
        job.shaders().len() <= usize::MAX,
        status != 0,
    ensures
        first_move(job).1 == CommandView::CreateProgram,
        commands(
            job,
            first_move(job).0,
            seq![Reply::Id(id)] + dones(job.shaders().len() as int) + seq![Reply::Value(status)]
                + dones(job.shaders().len() as int),
        ) == attaches(job.shaders(), id, 0) + seq![CommandView::LinkProgram { program: id }]
            + detaches(job.shaders(), id, 0) + seq![CommandView::Succeed { id }],
{
    let shaders = job.shaders();
    let n = shaders.len() as int;
    let rest = seq![Reply::Value(status)] + dones(n);
    let replies = seq![Reply::Id(id)] + dones(n) + rest;
    assert(replies =~= seq![Reply::Id(id)] + dones(n) + seq![Reply::Value(status)] + dones(n));
    assert(replies[0] == Reply::Id(id));
    assert(replies.skip(1) =~= dones(n) + rest);
    assert(next_move(job, State::Creating, replies[0]) == attach_move(shaders, id, 0));
    lemma_attach_rest(job, id, 0, rest);
    assert(rest[0] == Reply::Value(status));
    assert(rest.skip(1) =~= dones(n));
    assert(next_move(job, State::Checking { id }, rest[0]) == detach_move(shaders, id, 0));
    lemma_detach_rest(job, id, 0);
    assert(commands(job, State::Checking { id }, rest) == detaches(shaders, id, 0)
        + seq![CommandView::Succeed { id }]);
    assert(attaches(shaders, id, 0) + seq![CommandView::LinkProgram { program: id }] + (detaches(
        shaders,
        id,
        0,
    ) + seq![CommandView::Succeed { id }]) =~= attaches(shaders, id, 0)
        + seq![CommandView::LinkProgram { program: id }] + detaches(shaders, id, 0)
        + seq![CommandView::Succeed { id }]);
}

/// Linking that fails: after every shader is attached and the link status is
/// read as zero, no program is handed out: its log is read, the program is
/// deleted, and the log's text is the link error.
pub proof fn lemma_link_failure(job: Job, id: u32, len: i32, log: Vec<u8>)
    requires
        job is Link,
        job.shaders().len() <= usize::MAX,
        len >= 0,
    ensures
        commands(
            job,
            first_move(job).0,
            seq![Reply::Id(id)] + dones(job.shaders().len() as int) + seq![
                Reply::Value(0),
                Reply::Value(len),
                Reply::Log(log),
            ],
        ) == attaches(job.shaders(), id, 0) + seq![CommandView::LinkProgram { program: id }]
            + failure_commands(Target::Program, id, len, log@),
{
    let shaders = job.shaders();
    let n = shaders.len() as int;
    let rest = seq![Reply::Value(0), Reply::Value(len), Reply::Log(log)];
    let replies = seq![Reply::Id(id)] + dones(n) + rest;
    assert(replies[0] == Reply::Id(id));
    assert(replies.skip(1) =~= dones(n) + rest);
    assert(next_move(job, State::Creating, replies[0]) == attach_move(shaders, id, 0));
    lemma_attach_rest(job, id, 0, rest);
    lemma_failure_tail(job, id, len, log);
}

} // verus!
