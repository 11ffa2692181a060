//! The UCI protocol session with one engine: the commands to send, and what
//! each line of the engine's output means to the exchange in progress.

use crate::config::EngineConfig;
use crate::config::EngineConfigView;
use crate::engine::engine_views;
use crate::engine::EngineSpec;
use crate::engine::EngineSpecView;
use crate::text::after;
use crate::text::clone_strings;
use crate::text::decimal;
use crate::text::has_prefix;
use crate::text::push_decimal;
use crate::text::same_text;
use crate::text::strip_prefix;
use crate::text::text_of;
use crate::text::trim;
use crate::text::trimmed;
use vstd::prelude::*;
use vstd::string::StringExecFns;

verus! {

/// The error type `std::io::Error`, which the library carries and does not
/// look into.
#[verifier::external_type_specification]
#[verifier::external_body]
pub struct ExIoError(std::io::Error);

/// What an engine said of itself during the handshake.
#[derive(Debug)]
pub struct UciEngineInfo {
    pub name: String,
    pub author: String,
}

/// Why an exchange with an engine failed.
#[derive(Debug)]
pub enum UciError {
    /// Reading from or writing to the process failed.
    Io(std::io::Error),
    /// The answer to the named command did not arrive in time.
    Timeout(&'static str),
    /// The process closed its output.
    UnexpectedEof,
    /// The engine wrote what the protocol does not allow here.
    InvalidResponse(String),
}

impl UciError {
    /// A line of text that says what failed.
    pub fn message(&self) -> (text: String)
        ensures
            self matches UciError::Timeout(stage) ==> text@ == "timeout waiting for "@ + stage@,
            self is UnexpectedEof ==> text@ == "unexpected EOF"@,
            self matches UciError::InvalidResponse(line) ==> text@ == "invalid response: "@
                + line@,
            self is Io ==> has_prefix(text@, "io error: "@),
    {
        match self {
            UciError::Io(err) => {
                let detail = err.to_string();
                let text = String::from_str("io error: ").concat(detail.as_str());
                proof {
                    assert(text@.subrange(0, "io error: "@.len() as int) =~= "io error: "@);
                }
                text
            },
            UciError::Timeout(stage) => String::from_str("timeout waiting for ").concat(stage),
            UciError::UnexpectedEof => String::from_str("unexpected EOF"),
            UciError::InvalidResponse(line) => String::from_str("invalid response: ").concat(
                line.as_str(),
            ),
        }
    }
}

impl From<std::io::Error> for UciError {
    fn from(err: std::io::Error) -> (error: UciError) {
        UciError::Io(err)
    }
}

impl vstd::std_specs::convert::FromSpecImpl<std::io::Error> for UciError {
    open spec fn obeys_from_spec() -> bool {
        true
    }

    open spec fn from_spec(err: std::io::Error) -> UciError {
        UciError::Io(err)
    }
}

/// The command that opens the handshake.
pub const UCI: &'static str = "uci";

/// The line by which an engine closes the handshake.
pub const UCI_OK: &'static str = "uciok";

/// The command that asks an engine whether it is ready.
pub const IS_READY: &'static str = "isready";

/// The line by which an engine says that it is ready.
pub const READY_OK: &'static str = "readyok";

/// The command that tells an engine that a new game begins.
pub const UCI_NEW_GAME: &'static str = "ucinewgame";

/// The command that tells an engine to leave.
pub const QUIT: &'static str = "quit";

/// What a line that gives the engine's name begins with.
pub const ID_NAME: &'static str = "id name ";

/// What a line that gives the engine's author begins with.
pub const ID_AUTHOR: &'static str = "id author ";

/// What the line that carries the chosen move begins with.
pub const BEST_MOVE: &'static str = "bestmove ";

/// The name under which a timeout of a move request is reported.
pub const BEST_MOVE_STAGE: &'static str = "bestmove";

/// The acknowledgement that a session is reading for.
#[derive(Debug, Clone, Copy, PartialEq, Eq, Structural)]
pub enum Awaiting {
    /// None: whatever the engine writes is passed over.
    Nothing,
    /// The end of the handshake.
    UciOk,
    /// The answer to the readiness probe.
    ReadyOk,
    /// The chosen move.
    BestMove,
}

/// The protocol state of the session with one engine process: what it reads
/// for, and what the engine has said of itself in the handshake so far.
#[derive(Debug)]
pub struct UciProcess {
    awaiting: Awaiting,
    name: Option<String>,
    author: Option<String>,
}

/// A `UciProcess` as plain values.
pub struct UciProcessView {
    pub awaiting: Awaiting,
    pub name: Option<Seq<char>>,
    pub author: Option<Seq<char>>,
}

/// What a line of the engine's output brings to the exchange in progress.
#[derive(Debug)]
pub enum Reply {
    /// Nothing yet: keep reading.
    Pending,
    /// The handshake is complete.
    Identified(UciEngineInfo),
    /// The engine is ready.
    Ready,
    /// The engine chose this move.
    BestMove(String),
}

/// A `Reply` as plain values.
pub enum ReplyView {
    Pending,
    Identified { name: Seq<char>, author: Seq<char> },
    Ready,
    BestMove(Seq<char>),
}

/// The text, or the empty text where there is none.
pub open spec fn or_empty(value: Option<Seq<char>>) -> Seq<char> {
    match value {
        Some(s) => s,
        None => Seq::empty(),
    }
}

impl View for UciEngineInfo {
    type V = (Seq<char>, Seq<char>);

    open spec fn view(&self) -> (Seq<char>, Seq<char>) {
        (self.name@, self.author@)
    }
}

impl View for Reply {
    type V = ReplyView;

    open spec fn view(&self) -> ReplyView {
        match self {
            Reply::Pending => ReplyView::Pending,
            Reply::Identified(info) => ReplyView::Identified {
                name: info.name@,
                author: info.author@,
            },
            Reply::Ready => ReplyView::Ready,
            Reply::BestMove(token) => ReplyView::BestMove(token@),
        }
    }
}

impl View for UciProcess {
    type V = UciProcessView;

    closed spec fn view(&self) -> UciProcessView {
        UciProcessView {
            awaiting: self.awaiting,
            name: text_of(self.name),
            author: text_of(self.author),
        }
    }
}

/// The command that requests a move, with the time that each side has left.
pub open spec fn go_command(wtime: u64, btime: u64) -> Seq<char> {
    "go wtime "@ + decimal(wtime as nat) + " btime "@ + decimal(btime as nat)
}

impl UciProcessView {
    /// A session that reads for nothing and knows nothing of the engine.
    pub open spec fn idle() -> UciProcessView {
        UciProcessView { awaiting: Awaiting::Nothing, name: None, author: None }
    }

    /// The session after the line `line`, already trimmed. In the handshake a
    /// line that begins with `id name ` or `id author ` sets the name or the
    /// author to what follows, trimmed, and the line `uciok` ends the
    /// handshake; a readiness probe ends with the line `readyok`, and a move
    /// request with a line that begins with `bestmove `. Every other line is
    /// passed over.
    pub open spec fn accepted(self, line: Seq<char>) -> UciProcessView {
        match self.awaiting {
            Awaiting::Nothing => self,
            Awaiting::UciOk => if has_prefix(line, ID_NAME@) {
                UciProcessView { name: Some(trimmed(after(line, ID_NAME@.len()))), ..self }
            } else if has_prefix(line, ID_AUTHOR@) {
                UciProcessView { author: Some(trimmed(after(line, ID_AUTHOR@.len()))), ..self }
            } else if line == UCI_OK@ {
                UciProcessView { awaiting: Awaiting::Nothing, ..self }
            } else {
                self
            },
            Awaiting::ReadyOk => if line == READY_OK@ {
                UciProcessView { awaiting: Awaiting::Nothing, ..self }
            } else {
                self
            },
            Awaiting::BestMove => if has_prefix(line, BEST_MOVE@) {
                UciProcessView { awaiting: Awaiting::Nothing, ..self }
            } else {
                self
            },
        }
    }

    /// What the line `line`, already trimmed, brings: the engine's identity
    /// when it ends the handshake, with an empty text for a name or an author
    /// that the engine did not give; readiness when it answers the probe; the
    /// move, trimmed, when it carries one; nothing otherwise.
    pub open spec fn reply(self, line: Seq<char>) -> ReplyView {
        match self.awaiting {
            Awaiting::Nothing => ReplyView::Pending,
            Awaiting::UciOk => if !has_prefix(line, ID_NAME@) && !has_prefix(line, ID_AUTHOR@)
                && line == UCI_OK@ {
                ReplyView::Identified { name: or_empty(self.name), author: or_empty(self.author) }
            } else {
                ReplyView::Pending
            },
            Awaiting::ReadyOk => if line == READY_OK@ {
                ReplyView::Ready
            } else {
                ReplyView::Pending
            },
            Awaiting::BestMove => if has_prefix(line, BEST_MOVE@) {
                ReplyView::BestMove(trimmed(after(line, BEST_MOVE@.len())))
            } else {
                ReplyView::Pending
            },
        }
    }
}

/// A copy of a string that may be absent, or the empty string.
fn text_or_empty(value: &Option<String>) -> (text: String)
    ensures
        text@ == or_empty(text_of(*value)),
{
    match value {
        Some(s) => s.clone(),
        None => String::new(),
    }
}

impl UciProcess {
    /// The session with a process that has just been started.
    pub fn new() -> (session: UciProcess)
        ensures
            session@ == UciProcessView::idle(),
    {
        UciProcess { awaiting: Awaiting::Nothing, name: None, author: None }
    }

    /// What the session reads for.
    pub fn awaiting(&self) -> (awaiting: Awaiting)
        ensures
            awaiting == self@.awaiting,
    {
        self.awaiting
    }

    /// What is written to the process for the line `line`: the line and one
    /// newline.
    pub fn send_line(line: &str) -> (written: String)
        ensures
            written@ == line@ + seq!['\n'],
    {
        proof {
            reveal_strlit("\n");
            assert("\n"@ =~= seq!['\n']);
        }
        String::from_str(line).concat("\n")
    }

    /// What one read from the process brings: the line without the
    /// whitespace around it, or the error `UnexpectedEof` where the read
    /// brought no bytes, the process having closed its output.
    pub fn read_line(bytes_read: usize, buf: &str) -> (line: Result<String, UciError>)
        ensures
            bytes_read == 0 ==> line is Err && line->Err_0 is UnexpectedEof,
            bytes_read != 0 ==> line is Ok && line->Ok_0@ == trimmed(buf@),
    {
        if bytes_read == 0 {
            return Err(UciError::UnexpectedEof);
        }
        Ok(String::from_str(trim(buf)))
    }

    /// Opens the handshake: the command to send is `uci`, and the session
    /// reads for `uciok`, forgetting what an earlier handshake told.
    pub fn handshake(&mut self) -> (command: String)
        ensures
            command@ == UCI@,
            final(self)@ == (UciProcessView {
                awaiting: Awaiting::UciOk,
                name: None,
                author: None,
            }),
    {
        self.awaiting = Awaiting::UciOk;
        self.name = None;
        self.author = None;
        String::from_str(UCI)
    }

    /// Probes readiness: the command to send is `isready`, and the session
    /// reads for `readyok`.
    pub fn is_ready(&mut self) -> (command: String)
        ensures
            command@ == IS_READY@,
            final(self)@ == (UciProcessView { awaiting: Awaiting::ReadyOk, ..old(self)@ }),
    {
        self.awaiting = Awaiting::ReadyOk;
        String::from_str(IS_READY)
    }

    /// Announces a new game: the command to send is `ucinewgame`, and no
    /// answer is read for.
    pub fn ucinewgame(&self) -> (command: String)
        ensures
            command@ == UCI_NEW_GAME@,
    {
        String::from_str(UCI_NEW_GAME)
    }

    /// Requests a move: the command to send carries the time that each side
    /// has left, in milliseconds, and the session reads for the chosen move.
    pub fn bestmove(&mut self, wtime: u64, btime: u64) -> (command: String)
        ensures
            command@ == go_command(wtime, btime),
            final(self)@ == (UciProcessView { awaiting: Awaiting::BestMove, ..old(self)@ }),
    {
        self.awaiting = Awaiting::BestMove;
        let mut command = String::from_str("go wtime ");
        push_decimal(&mut command, wtime);
        command.append(" btime ");
        push_decimal(&mut command, btime);
        command
    }

    /// Ends the session: the command to send is `quit`.
    pub fn quit(self) -> (command: String)
        ensures
            command@ == QUIT@,
    {
        String::from_str(QUIT)
    }

    /// The error of an answer that did not arrive in time; the session reads
    /// for nothing afterwards.
    pub fn timed_out(&mut self) -> (error: UciError)
        ensures
            error matches UciError::Timeout(stage) && stage@ == (match old(self)@.awaiting {
                Awaiting::UciOk => UCI_OK@,
                Awaiting::ReadyOk => READY_OK@,
                _ => BEST_MOVE_STAGE@,
            }),
            final(self)@ == (UciProcessView { awaiting: Awaiting::Nothing, ..old(self)@ }),
    {
        let stage: &'static str = match self.awaiting {
            Awaiting::UciOk => UCI_OK,
            Awaiting::ReadyOk => READY_OK,
            _ => BEST_MOVE_STAGE,
        };
        self.awaiting = Awaiting::Nothing;
        UciError::Timeout(stage)
    }

    /// Takes one line of the engine's output, already trimmed, and says what
    /// it brings to the exchange in progress.
    pub fn accept(&mut self, line: &str) -> (reply: Reply)
        ensures
            final(self)@ == old(self)@.accepted(line@),
            reply@ == old(self)@.reply(line@),
    {
        match self.awaiting {
            Awaiting::Nothing => Reply::Pending,
            Awaiting::UciOk => {
                if let Some(rest) = strip_prefix(line, ID_NAME) {
                    self.name = Some(String::from_str(trim(rest)));
                    Reply::Pending
                } else if let Some(rest) = strip_prefix(line, ID_AUTHOR) {
                    self.author = Some(String::from_str(trim(rest)));
                    Reply::Pending
                } else if same_text(line, UCI_OK) {
                    self.awaiting = Awaiting::Nothing;
                    Reply::Identified(
                        UciEngineInfo {
                            name: text_or_empty(&self.name),
                            author: text_or_empty(&self.author),
                        },
                    )
                } else {
                    Reply::Pending
                }
            },
            Awaiting::ReadyOk => {
                if same_text(line, READY_OK) {
                    self.awaiting = Awaiting::Nothing;
                    Reply::Ready
                } else {
                    Reply::Pending
                }
            },
            Awaiting::BestMove => {
                if let Some(rest) = strip_prefix(line, BEST_MOVE) {
                    self.awaiting = Awaiting::Nothing;
                    Reply::BestMove(String::from_str(trim(rest)))
                } else {
                    Reply::Pending
                }
            },
        }
    }
}

/// The engine that the configuration `entry` resolves to once its process
/// has identified itself as `name` by `author`: an engine that gives no name
/// goes by its identifier.
pub open spec fn resolved(
    entry: EngineConfigView,
    name: Seq<char>,
    author: Seq<char>,
) -> EngineSpecView {
    EngineSpecView {
        id: entry.id,
        name: if name.len() == 0 {
            entry.id
        } else {
            name
        },
        author,
        path: entry.path,
        args: entry.args,
        working_dir: entry.working_dir,
    }
}

/// The engines that the first `n` configurations resolve to, in order: one
/// for each configuration whose process completed the handshake.
pub open spec fn discovered(
    configs: Seq<EngineConfig>,
    handshakes: Seq<Option<UciEngineInfo>>,
    n: int,
) -> Seq<EngineSpecView>
    decreases n,
{
    if n <= 0 {
        Seq::empty()
    } else {
        let earlier = discovered(configs, handshakes, n - 1);
        if n - 1 < handshakes.len() && handshakes[n - 1] is Some {
            let info = handshakes[n - 1].unwrap();
            earlier.push(resolved(configs[n - 1]@, info.name@, info.author@))
        } else {
            earlier
        }
    }
}

/// The engine that the configuration `entry` resolves to, its process having
/// identified itself as `info`.
pub fn resolve_engine(entry: &EngineConfig, info: &UciEngineInfo) -> (engine: EngineSpec)
    ensures
        engine@ == resolved(entry@, info.name@, info.author@),
{
    let name = if info.name.as_str().is_empty() {
        entry.id.clone()
    } else {
        info.name.clone()
    };
    let working_dir = match &entry.working_dir {
        Some(dir) => Some(dir.clone()),
        None => None,
    };
    EngineSpec {
        id: entry.id.clone(),
        name,
        author: info.author.clone(),
        path: entry.path.clone(),
        args: clone_strings(&entry.args),
        working_dir,
    }
}

/// The roster of engines at startup: `handshakes` holds, for each of
/// `configs` in order, what its process said of itself, or nothing where the
/// process could not be started or did not complete the handshake in time.
/// Such an engine is left out; the others are resolved in order. A
/// configuration without a handshake entry counts as not started.
pub fn discover_engines(configs: &[EngineConfig], handshakes: &[Option<UciEngineInfo>]) -> (engines:
    Result<Vec<EngineSpec>, UciError>)
    ensures
        engines is Ok,
        engine_views(engines.unwrap()@) == discovered(configs@, handshakes@, configs@.len() as int),
{
    let mut engines: Vec<EngineSpec> = Vec::new();
    let n: usize = configs.len();
    let mut i: usize = 0;
    while i < n
        invariant
            n == configs@.len(),
            i <= n,
            engine_views(engines@) == discovered(configs@, handshakes@, i as int),
        decreases n - i,
    {
        if i < handshakes.len() {
            match &handshakes[i] {
                Some(info) => {
                    let ghost before = engines@;
                    let engine = resolve_engine(&configs[i], info);
                    engines.push(engine);
                    proof {
                        assert(engine_views(engines@) =~= engine_views(before).push(engine@));
                    }
                },
                None => {},
            }
        }
        i += 1;
    }
    Ok(engines)
}

impl UciProcessView {
    /// The session after all of `lines`, in order.
    pub open spec fn accepted_all(self, lines: Seq<Seq<char>>) -> UciProcessView
        decreases lines.len(),
    {
        if lines.len() == 0 {
            self
        } else {
            self.accepted_all(lines.drop_last()).accepted(lines.last())
        }
    }
}

/// A move request passes over every line that carries no move: after any
/// number of such lines the session still reads for the move, knows of the
/// engine what it knew, and the first line that carries a move brings that
/// move.
pub proof fn lemma_move_request_reads_to_the_move(
    session: UciProcessView,
    lines: Seq<Seq<char>>,
    answer: Seq<char>,
)
    requires
        session.awaiting == Awaiting::BestMove,
        forall|i: int| 0 <= i < lines.len() ==> !has_prefix(#[trigger] lines[i], BEST_MOVE@),
        has_prefix(answer, BEST_MOVE@),
    ensures
        session.accepted_all(lines) == session,
        forall|i: int|
            0 <= i < lines.len() ==> session.accepted_all(lines.take(i)).reply(#[trigger] lines[i])
                == ReplyView::Pending,
        session.accepted_all(lines).reply(answer) == ReplyView::BestMove(
            trimmed(after(answer, BEST_MOVE@.len())),
        ),
        session.accepted_all(lines).accepted(answer).awaiting == Awaiting::Nothing,
    decreases lines.len(),
{
    if lines.len() > 0 {
        let earlier = lines.drop_last();
        lemma_move_request_reads_to_the_move(session, earlier, answer);
        assert(session.accepted_all(lines) == session);
        assert forall|i: int| 0 <= i < lines.len() implies session.accepted_all(
            lines.take(i),
        ).reply(#[trigger] lines[i]) == ReplyView::Pending by {
            if i < earlier.len() {
                assert(lines.take(i) =~= earlier.take(i));
                assert(lines[i] == earlier[i]);
            } else {
                assert(lines.take(i) =~= earlier);
            }
        }
    }
}

/// A readiness probe passes over every line but `readyok`, which ends it.
pub proof fn lemma_probe_reads_to_readyok(session: UciProcessView, lines: Seq<Seq<char>>)
    requires
        session.awaiting == Awaiting::ReadyOk,
        forall|i: int| 0 <= i < lines.len() ==> #[trigger] lines[i] != READY_OK@,
    ensures
        session.accepted_all(lines) == session,
        session.accepted_all(lines).reply(READY_OK@) == ReplyView::Ready,
    decreases lines.len(),
{
    if lines.len() > 0 {
        lemma_probe_reads_to_readyok(session, lines.drop_last());
    }
}

/// A handshake reads on until `uciok`: lines before it change at most what
/// is known of the engine, and a session that reads for nothing passes over
/// every line.
pub proof fn lemma_handshake_reads_to_uciok(session: UciProcessView, lines: Seq<Seq<char>>)
    requires
        forall|i: int| 0 <= i < lines.len() ==> #[trigger] lines[i] != UCI_OK@,
    ensures
        session.awaiting == Awaiting::UciOk ==> session.accepted_all(lines).awaiting
            == Awaiting::UciOk,
        session.awaiting == Awaiting::Nothing ==> session.accepted_all(lines) == session,
    decreases lines.len(),
{
    if lines.len() > 0 {
        lemma_handshake_reads_to_uciok(session, lines.drop_last());
    }
}

} // verus!
