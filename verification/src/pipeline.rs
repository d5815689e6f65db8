//! The build of a shader program as a state machine.
//!
//! The machine holds no GL context. Each step hands out the GL commands to
//! run next and is told the answer to the last of them; whoever holds the
//! context runs the commands in order and steps the machine again until it
//! has linked the program or given up.

use crate::shader::{
    known_type, kind_word, shader_type_name, BuildError, Command, Shader, COMPILE_STATUS,
    FRAGMENT_SHADER, GEOMETRY_SHADER, INFO_LOG_LENGTH, LINK_STATUS, TRUE, VERTEX_SHADER,
};
use crate::text::{find_nul, first_nul, from_utf8};
use vstd::prelude::*;
use vstd::utf8::{decode_utf8, encode_utf8, valid_utf8};

verus! {

/// What the machine waits for.
#[derive(Clone, Copy, Debug, PartialEq, Eq, Structural)]
pub enum Phase {
    /// Nothing has been asked of GL yet.
    Start,
    /// The name of the shader created for the next source.
    ShaderName,
    /// The length of the info log of the shader just compiled.
    ShaderLogLength { shader: u32 },
    /// The info log of that shader.
    ShaderLog { shader: u32 },
    /// The compile status of that shader.
    CompileStatus { shader: u32 },
    /// The name of the program created for the compiled shaders.
    ProgramName,
    /// The length of the info log of the program just linked.
    ProgramLogLength { program: u32 },
    /// That length once more, before the log is read.
    ProgramLogLengthAgain { program: u32 },
    /// The info log of the program.
    ProgramLog { program: u32 },
    /// The link status of the program.
    LinkStatus { program: u32 },
    /// The program is linked; the build is over.
    Linked { program: u32 },
    /// The build was given up.
    Failed(BuildError),
}

/// The answer to the last command of a step.
#[derive(Debug)]
pub enum Reply {
    /// The command has no answer.
    Nothing,
    /// The name of a new shader or program.
    Name(u32),
    /// The value that a query read.
    Value(i32),
    /// The bytes of an info log, without the closing NUL.
    Log(Vec<u8>),
}

/// The mathematical state of a build.
pub struct BuildState {
    /// The sources to compile, each with its shader type.
    pub sources: Seq<(Seq<char>, u32)>,
    /// The names of the shaders compiled so far and not yet deleted, in the
    /// order of their sources.
    pub units: Seq<u32>,
    pub phase: Phase,
}

/// What one step of the machine does.
pub struct Transition {
    pub next: BuildState,
    /// The text to print before the commands are run.
    pub print: Option<Seq<char>>,
    /// The commands to run, in order; the answer to the last is what the
    /// next step is told.
    pub commands: Seq<Command>,
}

/// The heading and text under which the info log of a shader is printed.
pub open spec fn shader_info(ty: u32, log: Seq<char>) -> Seq<char> {
    kind_word(ty) + " shader info:\n"@ + log
}

/// The heading and text under which the info log of a program is printed.
pub open spec fn program_info(log: Seq<char>) -> Seq<char> {
    "shader program info:\n"@ + log
}

impl BuildState {
    pub open spec fn over(self) -> bool {
        self.phase is Linked || self.phase is Failed
    }

    /// The commands that delete the compiled shaders.
    pub open spec fn releases(self) -> Seq<Command> {
        Seq::new(self.units.len(), |i: int| Command::DeleteShader { shader: self.units[i] })
    }

    pub open spec fn attaches(self, program: u32) -> Seq<Command> {
        Seq::new(
            self.units.len(),
            |i: int| Command::AttachShader { program, shader: self.units[i] },
        )
    }

    pub open spec fn detaches(self, program: u32) -> Seq<Command> {
        Seq::new(
            self.units.len(),
            |i: int| Command::DetachShader { program, shader: self.units[i] },
        )
    }

    /// Moves to a phase with one command, which asks for what the phase
    /// waits for.
    pub open spec fn ask(self, phase: Phase, command: Command) -> Transition {
        Transition {
            next: BuildState { phase, ..self },
            print: None,
            commands: seq![command],
        }
    }

    /// Gives the build up: after the commands of `first`, the compiled
    /// shaders are deleted and the error is raised.
    pub open spec fn fail(self, first: Seq<Command>, error: BuildError) -> Transition {
        Transition {
            next: BuildState { phase: Phase::Failed(error), units: seq![], ..self },
            print: None,
            commands: first + self.releases() + seq![Command::Fail(error)],
        }
    }

    /// Turns to the next source, or to linking when every source is
    /// compiled.
    pub open spec fn begin_unit(self) -> Transition {
        let i = self.units.len() as int;
        if i >= self.sources.len() {
            self.ask(Phase::ProgramName, Command::CreateProgram)
        } else if known_type(self.sources[i].1) {
            self.ask(Phase::ShaderName, Command::CreateShader { ty: self.sources[i].1 })
        } else {
            self.fail(seq![], BuildError::UnknownShaderType(self.sources[i].1))
        }
    }

    pub open spec fn on_shader_name(self, shader: u32) -> Transition {
        let i = self.units.len() as int;
        if i >= self.sources.len() {
            self.fail(seq![], BuildError::UnexpectedReply)
        } else {
            let bytes = encode_utf8(self.sources[i].0);
            if first_nul(bytes) < bytes.len() {
                self.fail(seq![], BuildError::NulInSource(first_nul(bytes) as usize))
            } else {
                Transition {
                    next: BuildState { phase: Phase::ShaderLogLength { shader }, ..self },
                    print: None,
                    commands: seq![
                        Command::ShaderSource { shader, source: i as usize },
                        Command::CompileShader { shader },
                        Command::GetShaderiv { shader, pname: INFO_LOG_LENGTH },
                    ],
                }
            }
        }
    }

    pub open spec fn on_shader_log_length(self, shader: u32, len: i32) -> Transition {
        if len > 0 {
            self.ask(Phase::ShaderLog { shader }, Command::GetShaderInfoLog { shader, buf_size: len })
        } else {
            self.ask(
                Phase::CompileStatus { shader },
                Command::GetShaderiv { shader, pname: COMPILE_STATUS },
            )
        }
    }

    pub open spec fn on_shader_log(self, shader: u32, log: Seq<u8>) -> Transition {
        let i = self.units.len() as int;
        if i >= self.sources.len() {
            self.fail(seq![], BuildError::UnexpectedReply)
        } else if valid_utf8(log) {
            Transition {
                next: BuildState { phase: Phase::CompileStatus { shader }, ..self },
                print: Some(shader_info(self.sources[i].1, decode_utf8(log))),
                commands: seq![Command::GetShaderiv { shader, pname: COMPILE_STATUS }],
            }
        } else {
            self.fail(seq![], BuildError::ShaderInfoLogNotUtf8)
        }
    }

    pub open spec fn on_compile_status(self, shader: u32, status: i32) -> Transition {
        if status == TRUE {
            BuildState { units: self.units.push(shader), ..self }.begin_unit()
        } else {
            self.fail(seq![Command::ReportErrors], BuildError::CompileFailed)
        }
    }

    pub open spec fn on_program_name(self, program: u32) -> Transition {
        Transition {
            next: BuildState { phase: Phase::ProgramLogLength { program }, ..self },
            print: None,
            commands: self.attaches(program) + seq![Command::LinkProgram { program }]
                + self.detaches(program) + seq![
                Command::GetProgramiv { program, pname: INFO_LOG_LENGTH },
            ],
        }
    }

    pub open spec fn on_program_log_length(self, program: u32, len: i32) -> Transition {
        if len > 0 {
            self.ask(
                Phase::ProgramLogLengthAgain { program },
                Command::GetProgramiv { program, pname: INFO_LOG_LENGTH },
            )
        } else {
            self.ask(
                Phase::LinkStatus { program },
                Command::GetProgramiv { program, pname: LINK_STATUS },
            )
        }
    }

    pub open spec fn on_program_log_length_again(self, program: u32, len: i32) -> Transition {
        if len > 0 {
            self.ask(
                Phase::ProgramLog { program },
                Command::GetProgramInfoLog { program, buf_size: len },
            )
        } else {
            self.fail(seq![], BuildError::ProgramInfoLogLost)
        }
    }

    pub open spec fn on_program_log(self, program: u32, log: Seq<u8>) -> Transition {
        if valid_utf8(log) {
            Transition {
                next: BuildState { phase: Phase::LinkStatus { program }, ..self },
                print: Some(program_info(decode_utf8(log))),
                commands: seq![Command::GetProgramiv { program, pname: LINK_STATUS }],
            }
        } else {
            self.fail(seq![], BuildError::ProgramInfoLogNotUtf8)
        }
    }

    pub open spec fn on_link_status(self, program: u32, status: i32) -> Transition {
        if status == TRUE {
            Transition {
                next: BuildState { phase: Phase::Linked { program }, units: seq![], ..self },
                print: None,
                commands: self.releases(),
            }
        } else {
            self.fail(seq![], BuildError::LinkFailed)
        }
    }

    /// The step that the machine takes in this state on an answer. A build
    /// that is over stays as it is; an answer of the wrong kind ends the
    /// build.
    pub open spec fn step(self, reply: Reply) -> Transition {
        match (self.phase, reply) {
            (Phase::Linked { .. }, _) | (Phase::Failed(_), _) => Transition {
                next: self,
                print: None,
                commands: seq![],
            },
            (Phase::Start, _) => self.begin_unit(),
            (Phase::ShaderName, Reply::Name(shader)) => self.on_shader_name(shader),
            (Phase::ShaderLogLength { shader }, Reply::Value(len)) => self.on_shader_log_length(
                shader,
                len,
            ),
            (Phase::ShaderLog { shader }, Reply::Log(log)) => self.on_shader_log(shader, log@),
            (Phase::CompileStatus { shader }, Reply::Value(status)) => self.on_compile_status(
                shader,
                status,
            ),
            (Phase::ProgramName, Reply::Name(program)) => self.on_program_name(program),
            (Phase::ProgramLogLength { program }, Reply::Value(len)) => self.on_program_log_length(
                program,
                len,
            ),
            (
                Phase::ProgramLogLengthAgain { program },
                Reply::Value(len),
            ) => self.on_program_log_length_again(program, len),
            (Phase::ProgramLog { program }, Reply::Log(log)) => self.on_program_log(program, log@),
            (Phase::LinkStatus { program }, Reply::Value(status)) => self.on_link_status(
                program,
                status,
            ),
            _ => self.fail(seq![], BuildError::UnexpectedReply),
        }
    }
}

impl BuildState {
    /// What holds of every state that a build passes through: while a
    /// source is being compiled it is one of the list and of a known type,
    /// the program is made of one shader for each source, and a build that
    /// is over holds no shader.
    pub open spec fn wf(self) -> bool {
        let done = self.units.len() as int;
        match self.phase {
            Phase::Start => done == 0,
            Phase::ShaderName
            | Phase::ShaderLogLength { .. }
            | Phase::ShaderLog { .. }
            | Phase::CompileStatus { .. } => done < self.sources.len() && known_type(
                self.sources[done].1,
            ),
            Phase::ProgramName
            | Phase::ProgramLogLength { .. }
            | Phase::ProgramLogLengthAgain { .. }
            | Phase::ProgramLog { .. }
            | Phase::LinkStatus { .. } => done == self.sources.len(),
            Phase::Linked { .. } | Phase::Failed(_) => done == 0,
        }
    }

    /// Whether an answer is of the kind that the phase waits for.
    pub open spec fn expects(self, reply: Reply) -> bool {
        match self.phase {
            Phase::Start | Phase::Linked { .. } | Phase::Failed(_) => true,
            Phase::ShaderName | Phase::ProgramName => reply is Name,
            Phase::ShaderLog { .. } | Phase::ProgramLog { .. } => reply is Log,
            Phase::ShaderLogLength { .. }
            | Phase::CompileStatus { .. }
            | Phase::ProgramLogLength { .. }
            | Phase::ProgramLogLengthAgain { .. }
            | Phase::LinkStatus { .. } => reply is Value,
        }
    }

    /// A bound on the number of steps that the build still takes.
    pub open spec fn steps_left(self) -> nat {
        let open = if self.units.len() <= self.sources.len() {
            (self.sources.len() - self.units.len()) as nat
        } else {
            0
        };
        match self.phase {
            Phase::Start => 4 * open + 7,
            Phase::ShaderName => 4 * open + 6,
            Phase::ShaderLogLength { .. } => 4 * open + 5,
            Phase::ShaderLog { .. } => 4 * open + 4,
            Phase::CompileStatus { .. } => 4 * open + 3,
            Phase::ProgramName => 5,
            Phase::ProgramLogLength { .. } => 4,
            Phase::ProgramLogLengthAgain { .. } => 3,
            Phase::ProgramLog { .. } => 2,
            Phase::LinkStatus { .. } => 1,
            Phase::Linked { .. } | Phase::Failed(_) => 0,
        }
    }
}

/// A step keeps the list of sources, and leads from a well-formed state to
/// a well-formed state.
pub proof fn lemma_step_keeps_form(state: BuildState, reply: Reply)
    requires
        state.wf(),
    ensures
        state.step(reply).next.sources == state.sources,
        state.step(reply).next.wf(),
{
}

/// The build ends: each step of a build that is not over leaves fewer steps
/// to take, so a build of `n` sources is over after at most `4 * n + 7`
/// steps, whatever the answers are.
pub proof fn lemma_step_nears_end(state: BuildState, reply: Reply)
    requires
        state.wf(),
        !state.over(),
    ensures
        state.step(reply).next.steps_left() < state.steps_left(),
        state.steps_left() <= 4 * state.sources.len() + 7,
{
}

/// A build that is over stays as it is and asks for nothing.
pub proof fn lemma_step_when_over(state: BuildState, reply: Reply)
    requires
        state.over(),
    ensures
        state.step(reply).next == state,
        state.step(reply).commands.len() == 0,
        state.step(reply).print is None,
{
}

/// In a well-formed state of a build underway, an answer of the kind that
/// the phase waits for is never taken for an unexpected one.
pub proof fn lemma_step_takes_expected(state: BuildState, reply: Reply)
    requires
        state.wf(),
        !state.over(),
        state.expects(reply),
    ensures
        state.step(reply).next.phase != Phase::Failed(BuildError::UnexpectedReply),
{
}

/// The step that ends a build deletes every shader that the build held,
/// after which it holds none; where the build is given up, the step ends
/// by raising the error.
pub proof fn lemma_step_that_ends(state: BuildState, reply: Reply)
    requires
        !state.over(),
        state.step(reply).next.over(),
    ensures
        state.step(reply).next.units.len() == 0,
        forall|i: int|
            0 <= i < state.units.len() ==> state.step(reply).commands.contains(
                Command::DeleteShader { shader: #[trigger] state.units[i] },
            ),
        state.step(reply).next.phase matches Phase::Failed(error) ==> state.step(
            reply,
        ).commands.last() == Command::Fail(error),
{
    let commands = state.step(reply).commands;
    assert forall|i: int| 0 <= i < state.units.len() implies commands.contains(
        Command::DeleteShader { shader: #[trigger] state.units[i] },
    ) by {
        let delete = Command::DeleteShader { shader: state.units[i] };
        assert(commands[i] == delete || commands[i + 1] == delete);
    }
}

/// An error is raised only by the last command of the step that gives the
/// build up.
pub proof fn lemma_step_raises_last(state: BuildState, reply: Reply)
    ensures
        forall|i: int|
            0 <= i < state.step(reply).commands.len() && #[trigger] state.step(
                reply,
            ).commands[i] is Fail ==> {
                &&& i == state.step(reply).commands.len() - 1
                &&& !state.over()
                &&& state.step(reply).next.phase == Phase::Failed(
                    state.step(reply).commands[i]->Fail_0,
                )
            },
{
}

/// What a step hands to whoever holds the GL context.
#[derive(Debug)]
pub struct Step {
    /// The text to print before the commands are run.
    pub print: Option<String>,
    /// The commands to run, in order; the answer to the last is what the
    /// next step is told.
    pub commands: Vec<Command>,
}

impl Step {
    /// Whether this is what a transition asks for.
    pub open spec fn shows(self, transition: Transition) -> bool {
        &&& self.commands@ == transition.commands
        &&& match self.print {
            Some(text) => transition.print == Some(text@),
            None => transition.print is None,
        }
    }
}

/// The sources of a list, each as its text and shader type.
pub open spec fn listed(sources: Seq<(&str, u32)>) -> Seq<(Seq<char>, u32)> {
    Seq::new(sources.len(), |i: int| (sources[i].0@, sources[i].1))
}

/// A build of a shader program underway.
#[derive(Debug)]
pub struct ShaderBuild {
    sources: Vec<(String, u32)>,
    units: Vec<u32>,
    phase: Phase,
}

impl View for ShaderBuild {
    type V = BuildState;

    closed spec fn view(&self) -> BuildState {
        BuildState {
            sources: Seq::new(
                self.sources@.len(),
                |i: int| (self.sources@[i].0@, self.sources@[i].1),
            ),
            units: self.units@,
            phase: self.phase,
        }
    }
}

impl Shader {
    /// Sets out to build a program from sources, each given with its shader
    /// type. The sources are compiled in the order of the list and linked
    /// into one program.
    pub fn from_sources(sources: &[(&str, u32)]) -> (build: ShaderBuild)
        ensures
            build@ == (BuildState { sources: listed(sources@), units: seq![], phase: Phase::Start }),
    {
        let mut owned: Vec<(String, u32)> = Vec::new();
        let mut i: usize = 0;
        while i < sources.len()
            invariant
                i <= sources.len(),
                owned@.len() == i,
                forall|j: int|
                    0 <= j < i ==> owned@[j].0@ == sources@[j].0@ && owned@[j].1 == sources@[j].1,
            decreases sources.len() - i,
        {
            let (text, ty) = sources[i];
            owned.push((String::from_str(text), ty));
            i += 1;
        }
        let build = ShaderBuild { sources: owned, units: Vec::new(), phase: Phase::Start };
        assert(build@.sources =~= listed(sources@));
        build
    }

    /// Sets out to build a program from a vertex shader and a fragment
    /// shader.
    pub fn from_vert_frag(vert: &str, frag: &str) -> (build: ShaderBuild)
        ensures
            build@ == (BuildState {
                sources: seq![(vert@, VERTEX_SHADER), (frag@, FRAGMENT_SHADER)],
                units: seq![],
                phase: Phase::Start,
            }),
    {
        let sources = [(vert, VERTEX_SHADER), (frag, FRAGMENT_SHADER)];
        let build = Shader::from_sources(sources.as_slice());
        assert(listed(sources@) =~= seq![(vert@, VERTEX_SHADER), (frag@, FRAGMENT_SHADER)]);
        build
    }
}

impl ShaderBuild {
    /// What the build waits for.
    pub fn phase(&self) -> (phase: Phase)
        ensures
            phase == self@.phase,
    {
        self.phase
    }

    /// Whether the build has linked the program or given up.
    pub fn is_over(&self) -> (over: bool)
        ensures
            over == self@.over(),
    {
        match self.phase {
            Phase::Linked { .. } => true,
            Phase::Failed(_) => true,
            _ => false,
        }
    }

    /// The program, once it is linked.
    pub fn shader(&self) -> (shader: Option<Shader>)
        ensures
            match shader {
                Some(linked) => self@.phase == (Phase::Linked { program: linked.name }),
                None => !(self@.phase is Linked),
            },
    {
        match self.phase {
            Phase::Linked { program } => Some(Shader { name: program }),
            _ => None,
        }
    }

    /// The error, once the build is given up.
    pub fn error(&self) -> (error: Option<BuildError>)
        ensures
            match error {
                Some(e) => self@.phase == Phase::Failed(e),
                None => !(self@.phase is Failed),
            },
    {
        match self.phase {
            Phase::Failed(e) => Some(e),
            _ => None,
        }
    }

    /// The text of the source at a position of the list, which a
    /// `ShaderSource` command asks to hand to GL.
    pub fn source(&self, index: usize) -> (text: Option<&str>)
        ensures
            match text {
                Some(t) => index < self@.sources.len() && t@ == self@.sources[index as int].0,
                None => index >= self@.sources.len(),
            },
    {
        if index < self.sources.len() {
            Some(self.sources[index].0.as_str())
        } else {
            None
        }
    }

    fn release_into(&self, commands: &mut Vec<Command>)
        ensures
            final(commands)@ == old(commands)@ + self@.releases(),
    {
        let ghost before = commands@;
        let mut i: usize = 0;
        while i < self.units.len()
            invariant
                i <= self.units.len(),
                commands@ == before + self@.releases().take(i as int),
            decreases self.units.len() - i,
        {
            commands.push(Command::DeleteShader { shader: self.units[i] });
            i += 1;
        }
        assert(self@.releases().take(i as int) =~= self@.releases());
    }

    fn attach_into(&self, program: u32, commands: &mut Vec<Command>)
        ensures
            final(commands)@ == old(commands)@ + self@.attaches(program),
    {
        let ghost before = commands@;
        let mut i: usize = 0;
        while i < self.units.len()
            invariant
                i <= self.units.len(),
                commands@ == before + self@.attaches(program).take(i as int),
            decreases self.units.len() - i,
        {
            commands.push(Command::AttachShader { program, shader: self.units[i] });
            i += 1;
        }
        assert(self@.attaches(program).take(i as int) =~= self@.attaches(program));
    }

    fn detach_into(&self, program: u32, commands: &mut Vec<Command>)
        ensures
            final(commands)@ == old(commands)@ + self@.detaches(program),
    {
        let ghost before = commands@;
        let mut i: usize = 0;
        while i < self.units.len()
            invariant
                i <= self.units.len(),
                commands@ == before + self@.detaches(program).take(i as int),
            decreases self.units.len() - i,
        {
            commands.push(Command::DetachShader { program, shader: self.units[i] });
            i += 1;
        }
        assert(self@.detaches(program).take(i as int) =~= self@.detaches(program));
    }

    fn ask(&mut self, phase: Phase, command: Command) -> (out: Step)
        ensures
            final(self)@ == old(self)@.ask(phase, command).next,
            out.shows(old(self)@.ask(phase, command)),
    {
        self.phase = phase;
        let mut commands: Vec<Command> = Vec::new();
        commands.push(command);
        Step { print: None, commands }
    }

    fn fail(&mut self, first: Vec<Command>, error: BuildError) -> (out: Step)
        ensures
            final(self)@ == old(self)@.fail(first@, error).next,
            out.shows(old(self)@.fail(first@, error)),
    {
        let mut commands = first;
        self.release_into(&mut commands);
        commands.push(Command::Fail(error));
        assert(commands@ =~= first@ + self@.releases() + seq![Command::Fail(error)]);
        self.units = Vec::new();
        self.phase = Phase::Failed(error);
        Step { print: None, commands }
    }

    fn begin_unit(&mut self) -> (out: Step)
        ensures
            final(self)@ == old(self)@.begin_unit().next,
            out.shows(old(self)@.begin_unit()),
    {
        let i = self.units.len();
        if i >= self.sources.len() {
            self.ask(Phase::ProgramName, Command::CreateProgram)
        } else {
            let ty = self.sources[i].1;
            match shader_type_name(ty) {
                Some(_) => self.ask(Phase::ShaderName, Command::CreateShader { ty }),
                None => self.fail(Vec::new(), BuildError::UnknownShaderType(ty)),
            }
        }
    }

    fn on_shader_name(&mut self, shader: u32) -> (out: Step)
        ensures
            final(self)@ == old(self)@.on_shader_name(shader).next,
            out.shows(old(self)@.on_shader_name(shader)),
    {
        let i = self.units.len();
        if i >= self.sources.len() {
            return self.fail(Vec::new(), BuildError::UnexpectedReply);
        }
        match find_nul(self.sources[i].0.as_str()) {
            Some(at) => self.fail(Vec::new(), BuildError::NulInSource(at)),
            None => {
                self.phase = Phase::ShaderLogLength { shader };
                let mut commands: Vec<Command> = Vec::new();
                commands.push(Command::ShaderSource { shader, source: i });
                commands.push(Command::CompileShader { shader });
                commands.push(Command::GetShaderiv { shader, pname: INFO_LOG_LENGTH });
                assert(commands@ =~= old(self)@.on_shader_name(shader).commands);
                Step { print: None, commands }
            },
        }
    }

    fn on_shader_log_length(&mut self, shader: u32, len: i32) -> (out: Step)
        ensures
            final(self)@ == old(self)@.on_shader_log_length(shader, len).next,
            out.shows(old(self)@.on_shader_log_length(shader, len)),
    {
        if len > 0 {
            self.ask(Phase::ShaderLog { shader }, Command::GetShaderInfoLog { shader, buf_size: len })
        } else {
            self.ask(
                Phase::CompileStatus { shader },
                Command::GetShaderiv { shader, pname: COMPILE_STATUS },
            )
        }
    }

    fn on_shader_log(&mut self, shader: u32, log: Vec<u8>) -> (out: Step)
        ensures
            final(self)@ == old(self)@.on_shader_log(shader, log@).next,
            out.shows(old(self)@.on_shader_log(shader, log@)),
    {
        let i = self.units.len();
        if i >= self.sources.len() {
            return self.fail(Vec::new(), BuildError::UnexpectedReply);
        }
        match from_utf8(log) {
            Some(text) => {
                let mut info = String::from_str(word_of(self.sources[i].1));
                info.append(" shader info:\n");
                info.append(text.as_str());
                let mut out = self.ask(
                    Phase::CompileStatus { shader },
                    Command::GetShaderiv { shader, pname: COMPILE_STATUS },
                );
                out.print = Some(info);
                out
            },
            None => self.fail(Vec::new(), BuildError::ShaderInfoLogNotUtf8),
        }
    }

    fn on_compile_status(&mut self, shader: u32, status: i32) -> (out: Step)
        ensures
            final(self)@ == old(self)@.on_compile_status(shader, status).next,
            out.shows(old(self)@.on_compile_status(shader, status)),
    {
        if status == TRUE {
            self.units.push(shader);
            self.begin_unit()
        } else {
            let mut first: Vec<Command> = Vec::new();
            first.push(Command::ReportErrors);
            self.fail(first, BuildError::CompileFailed)
        }
    }

    fn on_program_name(&mut self, program: u32) -> (out: Step)
        ensures
            final(self)@ == old(self)@.on_program_name(program).next,
            out.shows(old(self)@.on_program_name(program)),
    {
        let mut commands: Vec<Command> = Vec::new();
        self.attach_into(program, &mut commands);
        commands.push(Command::LinkProgram { program });
        self.detach_into(program, &mut commands);
        commands.push(Command::GetProgramiv { program, pname: INFO_LOG_LENGTH });
        assert(commands@ =~= self@.on_program_name(program).commands);
        self.phase = Phase::ProgramLogLength { program };
        Step { print: None, commands }
    }

    fn on_program_log_length(&mut self, program: u32, len: i32) -> (out: Step)
        ensures
            final(self)@ == old(self)@.on_program_log_length(program, len).next,
            out.shows(old(self)@.on_program_log_length(program, len)),
    {
        if len > 0 {
            self.ask(
                Phase::ProgramLogLengthAgain { program },
                Command::GetProgramiv { program, pname: INFO_LOG_LENGTH },
            )
        } else {
            self.ask(
                Phase::LinkStatus { program },
                Command::GetProgramiv { program, pname: LINK_STATUS },
            )
        }
    }

    fn on_program_log_length_again(&mut self, program: u32, len: i32) -> (out: Step)
        ensures
            final(self)@ == old(self)@.on_program_log_length_again(program, len).next,
            out.shows(old(self)@.on_program_log_length_again(program, len)),
    {
        if len > 0 {
            self.ask(
                Phase::ProgramLog { program },
                Command::GetProgramInfoLog { program, buf_size: len },
            )
        } else {
            self.fail(Vec::new(), BuildError::ProgramInfoLogLost)
        }
    }

    fn on_program_log(&mut self, program: u32, log: Vec<u8>) -> (out: Step)
        ensures
            final(self)@ == old(self)@.on_program_log(program, log@).next,
            out.shows(old(self)@.on_program_log(program, log@)),
    {
        match from_utf8(log) {
            Some(text) => {
                let mut info = String::from_str("shader program info:\n");
                info.append(text.as_str());
                let mut out = self.ask(
                    Phase::LinkStatus { program },
                    Command::GetProgramiv { program, pname: LINK_STATUS },
                );
                out.print = Some(info);
                out
            },
            None => self.fail(Vec::new(), BuildError::ProgramInfoLogNotUtf8),
        }
    }

    fn on_link_status(&mut self, program: u32, status: i32) -> (out: Step)
        ensures
            final(self)@ == old(self)@.on_link_status(program, status).next,
            out.shows(old(self)@.on_link_status(program, status)),
    {
        if status == TRUE {
            let mut commands: Vec<Command> = Vec::new();
            self.release_into(&mut commands);
            assert(commands@ =~= self@.releases());
            self.units = Vec::new();
            self.phase = Phase::Linked { program };
            Step { print: None, commands }
        } else {
            self.fail(Vec::new(), BuildError::LinkFailed)
        }
    }

    /// Takes one step: tells the machine the answer to the last command of
    /// the step before (`Reply::Nothing` at the start) and gets the text to
    /// print and the commands to run next. A build that is over hands out
    /// nothing more.
    pub fn step(&mut self, reply: Reply) -> (out: Step)
        ensures
            final(self)@ == old(self)@.step(reply).next,
            out.shows(old(self)@.step(reply)),
    {
        match (self.phase, reply) {
            (Phase::Linked { .. }, _) => Step { print: None, commands: Vec::new() },
            (Phase::Failed(_), _) => Step { print: None, commands: Vec::new() },
            (Phase::Start, _) => self.begin_unit(),
            (Phase::ShaderName, Reply::Name(shader)) => self.on_shader_name(shader),
            (Phase::ShaderLogLength { shader }, Reply::Value(len)) => self.on_shader_log_length(
                shader,
                len,
            ),
            (Phase::ShaderLog { shader }, Reply::Log(log)) => self.on_shader_log(shader, log),
            (Phase::CompileStatus { shader }, Reply::Value(status)) => self.on_compile_status(
                shader,
                status,
            ),
            (Phase::ProgramName, Reply::Name(program)) => self.on_program_name(program),
            (Phase::ProgramLogLength { program }, Reply::Value(len)) => self.on_program_log_length(
                program,
                len,
            ),
            (
                Phase::ProgramLogLengthAgain { program },
                Reply::Value(len),
            ) => self.on_program_log_length_again(program, len),
            (Phase::ProgramLog { program }, Reply::Log(log)) => self.on_program_log(program, log),
            (Phase::LinkStatus { program }, Reply::Value(status)) => self.on_link_status(
                program,
                status,
            ),
            _ => self.fail(Vec::new(), BuildError::UnexpectedReply),
        }
    }
}

fn word_of(ty: u32) -> (word: &'static str)
    ensures
        word@ == kind_word(ty),
{
    match ty {
        FRAGMENT_SHADER => "Fragment",
        GEOMETRY_SHADER => "Geometry",
        _ => "Vertex",
    }
}

} // verus!
