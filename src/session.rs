use vstd::prelude::*;
use crate::wire::{
    challenge_line, challenge_message, deploy_error_message, deploy_error_notice,
    has_module_magic, solution_line, solution_message, solution_payload,
    solution_payload_spec, starts_with_module_magic, token_line, token_message,
    token_unavailable_notice, SOLUTION_BUFFER_LEN,
};

verus! {

/// Where a session stands. Each stage names the command that is outstanding.
#[derive(Clone, Copy, Debug, PartialEq, Eq, Structural)]
pub enum Stage {
    Initializing,
    PreflightCheck,
    DeployingChallenge,
    AwaitingSolution,
    DeployingSolution,
    Provisioning,
    StateSanityCheck,
    Solving,
    Verifying,
    Done,
}

/// Position of a stage in the protocol; `Done` comes after every stage.
pub open spec fn rank(s: Stage) -> nat {
    match s {
        Stage::Initializing => 1,
        Stage::PreflightCheck => 2,
        Stage::DeployingChallenge => 3,
        Stage::AwaitingSolution => 4,
        Stage::DeployingSolution => 5,
        Stage::Provisioning => 6,
        Stage::StateSanityCheck => 7,
        Stage::Solving => 8,
        Stage::Verifying => 9,
        Stage::Done => 10,
    }
}

/// Why a session ended early.
#[derive(Clone, Copy, Debug, PartialEq, Eq, Structural)]
pub enum SessionError {
    ArtifactNotFound,
    ArtifactCorrupt,
    BackendInitFailed,
    BaselineInvalid,
    ChallengeDeployFailed,
    SolutionReadFailed,
    SolutionDeployFailed,
    ProvisionFailed,
    StateSanityFailed,
    SolveInvocationFailed,
    VerificationFailed,
}

/// A participant that deployments and calls are attributed to.
#[derive(Clone, Copy, Debug, PartialEq, Eq, Structural)]
pub enum Identity {
    Challenger,
    Solver,
}

impl Identity {
    /// The account label the backend knows this participant by.
    pub fn name(&self) -> (r: &'static str)
        ensures
            r@ == (match self {
                Identity::Challenger => "challenger"@,
                Identity::Solver => "solver"@,
            }),
    {
        match self {
            Identity::Challenger => "challenger",
            Identity::Solver => "solver",
        }
    }
}

/// An address assigned by the backend to a deployed module set.
#[derive(Clone, Copy, Debug)]
pub struct Address {
    pub bytes: [u8; 32],
}

/// An object named by convention: the `index`-th object created by the transaction
/// with sequence number `sequence`.
#[derive(Clone, Copy, Debug, PartialEq, Eq, Structural)]
pub struct ObjectRef {
    pub sequence: u64,
    pub index: u64,
}

/// The object inspected before anything is deployed: the first object of the context.
pub const BASELINE_SEQUENCE: u64 = 0;
pub const BASELINE_INDEX: u64 = 0;

/// The capability object handed to the challenge's creation function.
pub const CAPABILITY_SEQUENCE: u64 = 2;
pub const CAPABILITY_INDEX: u64 = 2;

/// The object created by the challenge's creation function.
pub const CHALLENGE_OBJECT_SEQUENCE: u64 = 4;
pub const CHALLENGE_OBJECT_INDEX: u64 = 0;

pub open spec fn baseline_object() -> ObjectRef {
    ObjectRef { sequence: BASELINE_SEQUENCE, index: BASELINE_INDEX }
}

pub open spec fn capability_object() -> ObjectRef {
    ObjectRef { sequence: CAPABILITY_SEQUENCE, index: CAPABILITY_INDEX }
}

pub open spec fn challenge_object() -> ObjectRef {
    ObjectRef { sequence: CHALLENGE_OBJECT_SEQUENCE, index: CHALLENGE_OBJECT_INDEX }
}

impl ObjectRef {
    /// Whether this is the object inspected before anything is deployed.
    pub fn is_baseline(&self) -> (r: bool)
        ensures
            r == (*self == baseline_object()),
    {
        self.sequence == BASELINE_SEQUENCE && self.index == BASELINE_INDEX
    }
}

/// Namespace symbol the challenge modules are deployed under.
pub fn challenge_namespace() -> (r: &'static str)
    ensures
        r@ == "challenge"@,
{
    "challenge"
}

/// Namespace symbol the client's module is deployed under.
pub fn solution_namespace() -> (r: &'static str)
    ensures
        r@ == "solution"@,
{
    "solution"
}

/// Dependencies declared when deploying the challenge: none.
pub fn challenge_dependencies() -> (r: Vec<String>)
    ensures
        r@.len() == 0,
{
    Vec::new()
}

/// Dependencies declared when deploying the client's module: the challenge's namespace.
pub fn solution_dependencies() -> (r: Vec<String>)
    ensures
        r@.len() == 1,
        r@[0]@ == "challenge"@,
{
    let mut r: Vec<String> = Vec::new();
    r.push(challenge_namespace().to_owned());
    r
}

/// Sequence number of the objects inspected after provisioning.
pub const SANITY_SEQUENCE: u64 = 2;

/// How many objects are inspected after provisioning.
pub const SANITY_OBJECTS: u64 = 3;

/// A contract function the session invokes.
#[derive(Clone, Copy, Debug, PartialEq, Eq, Structural)]
pub enum Entry {
    ChallengeCreate,
    SolutionSolve,
    ChallengeIsSolved,
}

impl Entry {
    /// The module that defines the function.
    pub fn module_name(&self) -> (r: &'static str)
        ensures
            r@ == (match self {
                Entry::ChallengeCreate => "challenge"@,
                Entry::SolutionSolve => "solution"@,
                Entry::ChallengeIsSolved => "challenge"@,
            }),
    {
        match self {
            Entry::ChallengeCreate => "challenge",
            Entry::SolutionSolve => "solution",
            Entry::ChallengeIsSolved => "challenge",
        }
    }

    /// The function's name within its module.
    pub fn function_name(&self) -> (r: &'static str)
        ensures
            r@ == (match self {
                Entry::ChallengeCreate => "create"@,
                Entry::SolutionSolve => "solve"@,
                Entry::ChallengeIsSolved => "is_solved"@,
            }),
    {
        match self {
            Entry::ChallengeCreate => "create",
            Entry::SolutionSolve => "solve",
            Entry::ChallengeIsSolved => "is_solved",
        }
    }
}

/// One function invocation: no type arguments, one object argument.
#[derive(Clone, Copy, Debug)]
pub struct Invocation {
    pub address: Address,
    pub entry: Entry,
    pub argument: ObjectRef,
    pub sender: Identity,
}

/// What the driver of a session is asked to do next.
#[derive(Debug)]
pub enum Command {
    /// Create a fresh execution context for the challenger and the solver.
    InitBackend,
    /// Read an object of the execution context.
    Inspect { object: ObjectRef },
    /// Load the challenge modules and deploy them as one batch, without dependencies.
    DeployChallenge { sender: Identity },
    /// Read the client's module off the connection, at most `max_len` bytes.
    ReadSolution { max_len: usize },
    /// Deserialize `payload` as the solution module and deploy it on top of the challenge.
    DeploySolution { payload: Vec<u8>, sender: Identity },
    /// Call a contract function.
    Invoke { call: Invocation },
    /// Close the connection; the session is over.
    Finish { outcome: Result<(), SessionError> },
}

/// What came of the last command.
#[derive(Debug)]
pub enum Event {
    /// The execution context is ready.
    Ready,
    /// The object was read.
    Found,
    /// The object, or an artifact to deploy, does not exist.
    Missing,
    /// The modules were deployed at `address`.
    Deployed { address: Address },
    /// A module could not be deserialized.
    Corrupt,
    /// The backend refused the deployment.
    Rejected,
    /// The client sent `data` and stopped sending.
    Received { data: Vec<u8> },
    /// The function call went through.
    Called,
    /// The command failed.
    Failed,
}

/// A step's output: a message for the client, to be sent first, and the next command.
#[derive(Debug)]
pub struct Directive {
    pub message: Option<Vec<u8>>,
    pub command: Command,
}

pub ghost enum CommandView {
    InitBackend,
    Inspect { object: ObjectRef },
    DeployChallenge { sender: Identity },
    ReadSolution { max_len: nat },
    DeploySolution { payload: Seq<u8>, sender: Identity },
    Invoke { address: Seq<u8>, entry: Entry, argument: ObjectRef, sender: Identity },
    Finish { outcome: Result<(), SessionError> },
}

pub ghost struct DirectiveView {
    pub message: Option<Seq<u8>>,
    pub command: CommandView,
}

impl View for Command {
    type V = CommandView;

    open spec fn view(&self) -> CommandView {
        match self {
            Command::InitBackend => CommandView::InitBackend,
            Command::Inspect { object } => CommandView::Inspect { object: *object },
            Command::DeployChallenge { sender } => CommandView::DeployChallenge { sender: *sender },
            Command::ReadSolution { max_len } => CommandView::ReadSolution { max_len: *max_len as nat },
            Command::DeploySolution { payload, sender } => CommandView::DeploySolution {
                payload: payload@,
                sender: *sender,
            },
            Command::Invoke { call } => CommandView::Invoke {
                address: call.address.bytes@,
                entry: call.entry,
                argument: call.argument,
                sender: call.sender,
            },
            Command::Finish { outcome } => CommandView::Finish { outcome: *outcome },
        }
    }
}

impl View for Directive {
    type V = DirectiveView;

    open spec fn view(&self) -> DirectiveView {
        DirectiveView {
            message: match self.message {
                Some(m) => Some(m@),
                None => None,
            },
            command: self.command@,
        }
    }
}

/// The state of one client session: its stage, the addresses deployed so far, how many
/// objects were inspected after provisioning, and the token revealed on success.
pub struct Session {
    pub stage: Stage,
    pub challenge: Option<Address>,
    pub solution: Option<Address>,
    pub checked: u64,
    pub token: Option<Vec<u8>>,
}

/// A session is well formed when the addresses it holds are those its stage needs.
pub open spec fn well_formed(s: Session) -> bool {
    &&& (rank(s.stage) <= 3 ==> s.challenge is None)
    &&& (rank(s.stage) <= 4 ==> s.solution is None)
    &&& (4 <= rank(s.stage) <= 9 ==> s.challenge is Some)
    &&& (6 <= rank(s.stage) <= 9 ==> s.solution is Some)
    &&& s.checked <= SANITY_OBJECTS
    &&& (s.stage != Stage::StateSanityCheck ==> s.checked == 0)
}

pub open spec fn finish(outcome: Result<(), SessionError>) -> CommandView {
    CommandView::Finish { outcome }
}

/// The session `s` once it has ended.
pub open spec fn ended(s: Session) -> Session {
    Session { stage: Stage::Done, checked: 0, ..s }
}

pub open spec fn invoke(address: Address, entry: Entry, argument: ObjectRef, sender: Identity) -> CommandView {
    CommandView::Invoke { address: address.bytes@, entry, argument, sender }
}

/// The stage a session moves to on event `e`.
pub open spec fn next_session(s: Session, e: Event) -> Session {
    match s.stage {
        Stage::Initializing => match e {
            Event::Ready => Session { stage: Stage::PreflightCheck, ..s },
            _ => ended(s),
        },
        Stage::PreflightCheck => match e {
            Event::Found => Session { stage: Stage::DeployingChallenge, ..s },
            _ => ended(s),
        },
        Stage::DeployingChallenge => match e {
            Event::Deployed { address } => Session {
                stage: Stage::AwaitingSolution,
                challenge: Some(address),
                ..s
            },
            _ => ended(s),
        },
        Stage::AwaitingSolution => match e {
            Event::Received { data } => if has_module_magic(solution_payload_spec(data@)) {
                Session { stage: Stage::DeployingSolution, ..s }
            } else {
                ended(s)
            },
            _ => ended(s),
        },
        Stage::DeployingSolution => match e {
            Event::Deployed { address } => Session {
                stage: Stage::Provisioning,
                solution: Some(address),
                ..s
            },
            _ => ended(s),
        },
        Stage::Provisioning => match e {
            Event::Called => Session { stage: Stage::StateSanityCheck, checked: 0, ..s },
            _ => ended(s),
        },
        Stage::StateSanityCheck => match e {
            Event::Found => if s.checked + 1 < SANITY_OBJECTS {
                Session { checked: (s.checked + 1) as u64, ..s }
            } else {
                Session { stage: Stage::Solving, checked: 0, ..s }
            },
            _ => ended(s),
        },
        Stage::Solving => match e {
            Event::Called => Session { stage: Stage::Verifying, ..s },
            _ => ended(s),
        },
        Stage::Verifying => ended(s),
        Stage::Done => s,
    }
}

/// The message and command a session emits on event `e`.
pub open spec fn next_directive(s: Session, e: Event) -> DirectiveView {
    let quiet = |c: CommandView| DirectiveView { message: None, command: c };
    match s.stage {
        Stage::Initializing => match e {
            Event::Ready => quiet(CommandView::Inspect { object: baseline_object() }),
            _ => quiet(finish(Err(SessionError::BackendInitFailed))),
        },
        Stage::PreflightCheck => match e {
            Event::Found => quiet(CommandView::DeployChallenge { sender: Identity::Challenger }),
            _ => quiet(finish(Err(SessionError::BaselineInvalid))),
        },
        Stage::DeployingChallenge => match e {
            Event::Deployed { address } => quiet(
                CommandView::ReadSolution { max_len: SOLUTION_BUFFER_LEN as nat },
            ),
            Event::Missing => DirectiveView {
                message: Some(deploy_error_notice()),
                command: finish(Err(SessionError::ArtifactNotFound)),
            },
            _ => DirectiveView {
                message: Some(deploy_error_notice()),
                command: finish(Err(SessionError::ChallengeDeployFailed)),
            },
        },
        Stage::AwaitingSolution => match e {
            Event::Received { data } => {
                let payload = solution_payload_spec(data@);
                DirectiveView {
                    message: Some(challenge_line(s.challenge.unwrap().bytes@)),
                    command: if has_module_magic(payload) {
                        CommandView::DeploySolution { payload, sender: Identity::Solver }
                    } else {
                        finish(Err(SessionError::SolutionDeployFailed))
                    },
                }
            },
            _ => quiet(finish(Err(SessionError::SolutionReadFailed))),
        },
        Stage::DeployingSolution => match e {
            Event::Deployed { address } => DirectiveView {
                message: Some(solution_line(address.bytes@)),
                command: invoke(
                    s.challenge.unwrap(),
                    Entry::ChallengeCreate,
                    capability_object(),
                    Identity::Challenger,
                ),
            },
            Event::Corrupt => quiet(finish(Err(SessionError::SolutionDeployFailed))),
            _ => DirectiveView {
                message: Some(deploy_error_notice()),
                command: finish(Err(SessionError::SolutionDeployFailed)),
            },
        },
        Stage::Provisioning => match e {
            Event::Called => quiet(
                CommandView::Inspect { object: ObjectRef { sequence: SANITY_SEQUENCE, index: 0 } },
            ),
            _ => quiet(finish(Err(SessionError::ProvisionFailed))),
        },
        Stage::StateSanityCheck => match e {
            Event::Found => if s.checked + 1 < SANITY_OBJECTS {
                quiet(
                    CommandView::Inspect {
                        object: ObjectRef { sequence: SANITY_SEQUENCE, index: (s.checked + 1) as u64 },
                    },
                )
            } else {
                quiet(
                    invoke(
                        s.solution.unwrap(),
                        Entry::SolutionSolve,
                        challenge_object(),
                        Identity::Solver,
                    ),
                )
            },
            _ => quiet(finish(Err(SessionError::StateSanityFailed))),
        },
        Stage::Solving => match e {
            Event::Called => quiet(
                invoke(
                    s.challenge.unwrap(),
                    Entry::ChallengeIsSolved,
                    challenge_object(),
                    Identity::Solver,
                ),
            ),
            _ => quiet(finish(Err(SessionError::SolveInvocationFailed))),
        },
        Stage::Verifying => match e {
            Event::Called => DirectiveView {
                message: Some(
                    match s.token {
                        Some(t) => token_line(t@),
                        None => token_unavailable_notice(),
                    },
                ),
                command: finish(Ok(())),
            },
            _ => quiet(finish(Err(SessionError::VerificationFailed))),
        },
        Stage::Done => quiet(finish(Ok(()))),
    }
}

impl Session {
    /// A session that has not started yet; `token` is revealed to a client that solves
    /// the challenge.
    pub fn new(token: Option<Vec<u8>>) -> (r: Session)
        ensures
            r.stage == Stage::Initializing,
            r.token == token,
            well_formed(r),
    {
        Session { stage: Stage::Initializing, challenge: None, solution: None, checked: 0, token }
    }

    /// The first directive of every session: create the execution context.
    pub fn initial_directive() -> (d: Directive)
        ensures
            d@ == (DirectiveView { message: None, command: CommandView::InitBackend }),
    {
        Directive { message: None, command: Command::InitBackend }
    }

    fn end(&mut self, message: Option<Vec<u8>>, error: SessionError) -> (d: Directive)
        requires
            well_formed(*old(self)),
        ensures
            *final(self) == ended(*old(self)),
            well_formed(*final(self)),
            d.message == message,
            d@.command == finish(Err(error)),
    {
        self.stage = Stage::Done;
        self.checked = 0;
        Directive { message, command: Command::Finish { outcome: Err(error) } }
    }

    /// Feeds the outcome of the last command to the session and returns what to do next.
    pub fn step(&mut self, e: Event) -> (d: Directive)
        requires
            well_formed(*old(self)),
        ensures
            *final(self) == next_session(*old(self), e),
            well_formed(*final(self)),
            d@ == next_directive(*old(self), e),
    {
        match self.stage {
            Stage::Initializing => match e {
                Event::Ready => {
                    self.stage = Stage::PreflightCheck;
                    let object = ObjectRef { sequence: BASELINE_SEQUENCE, index: BASELINE_INDEX };
                    Directive { message: None, command: Command::Inspect { object } }
                },
                _ => self.end(None, SessionError::BackendInitFailed),
            },
            Stage::PreflightCheck => match e {
                Event::Found => {
                    self.stage = Stage::DeployingChallenge;
                    Directive {
                        message: None,
                        command: Command::DeployChallenge { sender: Identity::Challenger },
                    }
                },
                _ => self.end(None, SessionError::BaselineInvalid),
            },
            Stage::DeployingChallenge => match e {
                Event::Deployed { address } => {
                    self.stage = Stage::AwaitingSolution;
                    self.challenge = Some(address);
                    Directive {
                        message: None,
                        command: Command::ReadSolution { max_len: SOLUTION_BUFFER_LEN },
                    }
                },
                Event::Missing => {
                    let m = deploy_error_message();
                    self.end(Some(m), SessionError::ArtifactNotFound)
                },
                _ => {
                    let m = deploy_error_message();
                    self.end(Some(m), SessionError::ChallengeDeployFailed)
                },
            },
            Stage::AwaitingSolution => match e {
                Event::Received { data } => {
                    let challenge = self.challenge.unwrap();
                    let m = challenge_message(&challenge.bytes);
                    let payload = solution_payload(data.as_slice());
                    if starts_with_module_magic(payload.as_slice()) {
                        self.stage = Stage::DeployingSolution;
                        Directive {
                            message: Some(m),
                            command: Command::DeploySolution { payload, sender: Identity::Solver },
                        }
                    } else {
                        self.end(Some(m), SessionError::SolutionDeployFailed)
                    }
                },
                _ => self.end(None, SessionError::SolutionReadFailed),
            },
            Stage::DeployingSolution => match e {
                Event::Deployed { address } => {
                    self.stage = Stage::Provisioning;
                    self.solution = Some(address);
                    let m = solution_message(&address.bytes);
                    let call = Invocation {
                        address: self.challenge.unwrap(),
                        entry: Entry::ChallengeCreate,
                        argument: ObjectRef { sequence: CAPABILITY_SEQUENCE, index: CAPABILITY_INDEX },
                        sender: Identity::Challenger,
                    };
                    Directive { message: Some(m), command: Command::Invoke { call } }
                },
                Event::Corrupt => self.end(None, SessionError::SolutionDeployFailed),
                _ => {
                    let m = deploy_error_message();
                    self.end(Some(m), SessionError::SolutionDeployFailed)
                },
            },
            Stage::Provisioning => match e {
                Event::Called => {
                    self.stage = Stage::StateSanityCheck;
                    self.checked = 0;
                    let object = ObjectRef { sequence: SANITY_SEQUENCE, index: 0 };
                    Directive { message: None, command: Command::Inspect { object } }
                },
                _ => self.end(None, SessionError::ProvisionFailed),
            },
            Stage::StateSanityCheck => match e {
                Event::Found => {
                    if self.checked + 1 < SANITY_OBJECTS {
                        self.checked = self.checked + 1;
                        let object = ObjectRef { sequence: SANITY_SEQUENCE, index: self.checked };
                        Directive { message: None, command: Command::Inspect { object } }
                    } else {
                        self.stage = Stage::Solving;
                        self.checked = 0;
                        let call = Invocation {
                            address: self.solution.unwrap(),
                            entry: Entry::SolutionSolve,
                            argument: ObjectRef {
                                sequence: CHALLENGE_OBJECT_SEQUENCE,
                                index: CHALLENGE_OBJECT_INDEX,
                            },
                            sender: Identity::Solver,
                        };
                        Directive { message: None, command: Command::Invoke { call } }
                    }
                },
                _ => self.end(None, SessionError::StateSanityFailed),
            },
            Stage::Solving => match e {
                Event::Called => {
                    self.stage = Stage::Verifying;
                    let call = Invocation {
                        address: self.challenge.unwrap(),
                        entry: Entry::ChallengeIsSolved,
                        argument: ObjectRef {
                            sequence: CHALLENGE_OBJECT_SEQUENCE,
                            index: CHALLENGE_OBJECT_INDEX,
                        },
                        sender: Identity::Solver,
                    };
                    Directive { message: None, command: Command::Invoke { call } }
                },
                _ => self.end(None, SessionError::SolveInvocationFailed),
            },
            Stage::Verifying => match e {
                Event::Called => {
                    self.stage = Stage::Done;
                    let m = token_message(&self.token);
                    Directive { message: Some(m), command: Command::Finish { outcome: Ok(()) } }
                },
                _ => self.end(None, SessionError::VerificationFailed),
            },
            Stage::Done => Directive { message: None, command: Command::Finish { outcome: Ok(()) } },
        }
    }
}

} // verus!
