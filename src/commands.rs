//! The commands the bot answers, and the run of the code blocks of a
//! message, one backend call at a time.
use vstd::prelude::*;
use crate::discord::InteractionData;
use crate::dispatch::{plan, plan_execution, BackendError, ExecutionRequest};
use crate::extract::{code_blocks, extract_blocks, CodeBlock, ExtractionError};
use crate::text::same_text;
use crate::response::{
    validate_block_output, validate_output, validate_reply, validate_reply_length,
    ValidatedResponse, ValidationError,
};

verus! {

/// The closed set of commands.
#[derive(Clone, Copy, Debug, PartialEq, Eq, Structural)]
pub enum CommandType {
    Ping,
    Pong,
    Run,
}

/// The command a name invokes, if it names one.
pub open spec fn command_kind(name: Seq<char>) -> Option<CommandType> {
    if name == "ping"@ {
        Some(CommandType::Ping)
    } else if name == "pong"@ {
        Some(CommandType::Pong)
    } else if name == "run"@ {
        Some(CommandType::Run)
    } else {
        None
    }
}

/// Classifies a command name.
pub fn classify(name: &str) -> (r: Option<CommandType>)
    ensures
        r == command_kind(name@),
{
    if same_text(name, "ping") {
        Some(CommandType::Ping)
    } else if same_text(name, "pong") {
        Some(CommandType::Pong)
    } else if same_text(name, "run") {
        Some(CommandType::Run)
    } else {
        None
    }
}

/// A classified command, with the interaction it was invoked by.
pub struct Command {
    command_type: CommandType,
    data: InteractionData,
}

/// The text delivered when `run` is not invoked on exactly one message.
pub open spec fn missing_target_text() -> Seq<char> {
    "ERROR: Couldn't get message content.\nHint: invoke this command from a message's context menu (Apps > run)."@
}

/// What one block contributes to the reply, given what its backend call
/// gave: its wrapped output, or the error text that ends the reply.
pub open spec fn block_outcome(
    block: (Seq<char>, Seq<char>),
    result: Result<Seq<char>, BackendError>,
) -> Result<Seq<char>, Seq<char>> {
    match plan(block) {
        Err(d) => Err(d.text()),
        Ok(_) => match result {
            Err(b) => Err(b.text()),
            Ok(o) => match validate_output(o) {
                Ok(w) => Ok(w),
                Err(v) => Err(v.text()),
            },
        },
    }
}

/// The outcomes of blocks taken in order: the first error ends the reply,
/// else the wrapped outputs are concatenated.
pub open spec fn combine(outcomes: Seq<Result<Seq<char>, Seq<char>>>) -> Result<Seq<char>, Seq<char>>
    decreases outcomes.len(),
{
    if outcomes.len() == 0 {
        Ok(Seq::empty())
    } else {
        match outcomes[0] {
            Err(e) => Err(e),
            Ok(w) => match combine(outcomes.drop_first()) {
                Ok(r) => Ok(w + r),
                Err(e) => Err(e),
            },
        }
    }
}

/// The content delivered for a combined reply, and whether it is an error.
pub open spec fn final_reply(c: Result<Seq<char>, Seq<char>>) -> (Seq<char>, bool) {
    match c {
        Ok(r) => match validate_reply(r) {
            Ok(v) => (v, false),
            Err(e) => (e.text(), true),
        },
        Err(e) => (e, true),
    }
}

/// The outcomes of blocks and the results of their backend calls, pairwise.
pub open spec fn outcomes_of(
    blocks: Seq<(Seq<char>, Seq<char>)>,
    results: Seq<Result<Seq<char>, BackendError>>,
) -> Seq<Result<Seq<char>, Seq<char>>> {
    Seq::new(results.len(), |i: int| block_outcome(blocks[i], results[i]))
}

/// Appending a successful outcome extends the combined reply.
pub proof fn lemma_combine_push_ok(outcomes: Seq<Result<Seq<char>, Seq<char>>>, w: Seq<char>)
    requires
        combine(outcomes) is Ok,
    ensures
        combine(outcomes.push(Ok(w))) == Ok::<Seq<char>, Seq<char>>(
            combine(outcomes)->Ok_0 + w,
        ),
    decreases outcomes.len(),
{
    let s = outcomes.push(Ok(w));
    if outcomes.len() == 0 {
        assert(s.drop_first() =~= Seq::<Result<Seq<char>, Seq<char>>>::empty());
        assert(w + Seq::<char>::empty() =~= w);
        assert(Seq::<char>::empty() + w =~= w);
    } else {
        assert(s.drop_first() =~= outcomes.drop_first().push(Ok(w)));
        lemma_combine_push_ok(outcomes.drop_first(), w);
        let a = outcomes[0]->Ok_0;
        let r = combine(outcomes.drop_first())->Ok_0;
        assert(a + (r + w) =~= (a + r) + w);
    }
}

/// Short circuit: when every block before one succeeded and that one
/// failed, the reply is that block's error, whatever the blocks after it
/// would give.
pub proof fn lemma_short_circuit(
    before: Seq<Result<Seq<char>, Seq<char>>>,
    e: Seq<char>,
    after: Seq<Result<Seq<char>, Seq<char>>>,
)
    requires
        forall|i: int| 0 <= i < before.len() ==> (#[trigger] before[i]) is Ok,
    ensures
        combine(before + seq![Err(e)] + after) == Err::<Seq<char>, Seq<char>>(e),
        final_reply(combine(before + seq![Err(e)] + after)) == (e, true),
    decreases before.len(),
{
    let s = before + seq![Err(e)] + after;
    if before.len() == 0 {
        assert(s[0] == Err::<Seq<char>, Seq<char>>(e));
    } else {
        assert(s.drop_first() =~= before.drop_first() + seq![Err(e)] + after);
        assert(s[0] == before[0]);
        assert forall|i: int| 0 <= i < before.drop_first().len() implies (
        #[trigger] before.drop_first()[i]) is Ok by {
            assert(before.drop_first()[i] == before[i + 1]);
        }
        lemma_short_circuit(before.drop_first(), e, after);
    }
}

/// Concatenation order: when two blocks both succeed, the reply holds the
/// first one's wrapped output followed by the second one's.
pub proof fn lemma_two_blocks_in_order(w1: Seq<char>, w2: Seq<char>)
    ensures
        combine(seq![Ok(w1), Ok(w2)]) == Ok::<Seq<char>, Seq<char>>(w1 + w2),
{
    let s: Seq<Result<Seq<char>, Seq<char>>> = seq![Ok(w1), Ok(w2)];
    let t: Seq<Result<Seq<char>, Seq<char>>> = seq![Ok(w2)];
    assert(s.drop_first() =~= t);
    assert(t.drop_first() =~= Seq::<Result<Seq<char>, Seq<char>>>::empty());
    assert(combine(t.drop_first()) == Ok::<Seq<char>, Seq<char>>(Seq::empty()));
    assert(t[0] == Ok::<Seq<char>, Seq<char>>(w2));
    assert(w2 + Seq::<char>::empty() =~= w2);
    assert(s[0] == Ok::<Seq<char>, Seq<char>>(w1));
    assert(combine(s.drop_first()) == Ok::<Seq<char>, Seq<char>>(w2));
}

/// The view of a backend call's result.
pub open spec fn result_view(r: Result<String, BackendError>) -> Result<Seq<char>, BackendError> {
    match r {
        Ok(s) => Ok(s@),
        Err(e) => Err(e),
    }
}

/// What the bot does next in a run.
pub enum RunAction {
    /// Call a backend, then hand its result to `RunSession::record`.
    Execute(ExecutionRequest),
    /// Deliver this content; the run is over.
    Reply(ValidatedResponse),
}

/// The run of the blocks of one message: the blocks, how many of them have
/// succeeded, and the reply so far.
pub struct RunSession {
    blocks: Vec<CodeBlock>,
    done: usize,
    reply: String,
    results: Ghost<Seq<Result<Seq<char>, BackendError>>>,
}

impl RunSession {
    pub closed spec fn blocks_spec(&self) -> Seq<(Seq<char>, Seq<char>)> {
        self.blocks@.map_values(|b: CodeBlock| b@)
    }

    pub closed spec fn done_spec(&self) -> nat {
        self.done as nat
    }

    pub closed spec fn reply_spec(&self) -> Seq<char> {
        self.reply@
    }

    /// The outcomes of the blocks run so far.
    pub closed spec fn outcomes(&self) -> Seq<Result<Seq<char>, Seq<char>>> {
        outcomes_of(self.blocks_spec(), self.results@)
    }

    /// Every block run so far succeeded, and the reply is their
    /// concatenation.
    pub closed spec fn wf(&self) -> bool {
        &&& self.done <= self.blocks@.len()
        &&& self.results@.len() == self.done
        &&& combine(self.outcomes()) == Ok::<Seq<char>, Seq<char>>(self.reply@)
    }

    /// A run over the given blocks, none of them run yet.
    pub fn new(blocks: Vec<CodeBlock>) -> (r: RunSession)
        ensures
            r.wf(),
            r.blocks_spec() == blocks@.map_values(|b: CodeBlock| b@),
            r.done_spec() == 0,
            r.reply_spec() == Seq::<char>::empty(),
    {
        let r = RunSession { blocks, done: 0, reply: String::new(), results: Ghost(Seq::empty()) };
        assert(r.outcomes() =~= Seq::<Result<Seq<char>, Seq<char>>>::empty());
        r
    }

    /// The next step: the call for the next block, the error that routing
    /// it gives, or the reply once every block has succeeded.
    pub fn next_action(&self) -> (r: RunAction)
        requires
            self.wf(),
        ensures
            self.done_spec() == self.blocks_spec().len() ==> (r matches RunAction::Reply(v)
                && v@ == final_reply(combine(self.outcomes()))),
            self.done_spec() < self.blocks_spec().len() ==> match plan(
                self.blocks_spec()[self.done_spec() as int],
            ) {
                Ok(b) => r matches RunAction::Execute(req) && req.backend@ == b && req.code@
                    == self.blocks_spec()[self.done_spec() as int].1,
                Err(d) => r matches RunAction::Reply(v) && v@ == (d.text(), true),
            },
    {
        if self.done == self.blocks.len() {
            let reply = self.reply.clone();
            match validate_reply_length(reply) {
                Ok(v) => RunAction::Reply(ValidatedResponse::success(v)),
                Err(e) => RunAction::Reply(ValidatedResponse::error(e.message())),
            }
        } else {
            let block = &self.blocks[self.done];
            assert(self.blocks_spec()[self.done_spec() as int] == block@);
            match plan_execution(block) {
                Ok(req) => RunAction::Execute(req),
                Err(d) => RunAction::Reply(ValidatedResponse::error(d.message())),
            }
        }
    }

    /// Takes the result of the backend call for the next block. A failure,
    /// or an output that fails validation, ends the run with its error;
    /// else the wrapped output joins the reply and `None` is returned.
    pub fn record(&mut self, result: Result<String, BackendError>) -> (r: Option<ValidatedResponse>)
        requires
            old(self).wf(),
            old(self).done_spec() < old(self).blocks_spec().len(),
            plan(old(self).blocks_spec()[old(self).done_spec() as int]) is Ok,
        ensures
            ({
                let o = block_outcome(old(self).blocks_spec()[old(self).done_spec() as int], result_view(result));
                match o {
                    Ok(w) => {
                        &&& r is None
                        &&& final(self).wf()
                        &&& final(self).blocks_spec() == old(self).blocks_spec()
                        &&& final(self).done_spec() == old(self).done_spec() + 1
                        &&& final(self).reply_spec() == old(self).reply_spec() + w
                        &&& final(self).outcomes() == old(self).outcomes().push(o)
                    },
                    Err(e) => {
                        &&& r matches Some(v) && v@ == (e, true) && v@ == final_reply(
                            combine(old(self).outcomes().push(o)),
                        )
                    },
                }
            }),
    {
        let ghost res = result_view(result);
        let ghost old_outcomes = self.outcomes();
        let ghost o = block_outcome(self.blocks_spec()[self.done_spec() as int], res);
        proof {
            assert(old_outcomes.push(o) =~= old_outcomes + seq![o] + Seq::empty());
            assert forall|i: int| 0 <= i < old_outcomes.len() implies (#[trigger] old_outcomes[i]) is Ok by {
                lemma_prefix_ok(old_outcomes, i);
            }
        }
        match result {
            Err(e) => {
                proof {
                    lemma_short_circuit(old_outcomes, e.text(), Seq::empty());
                }
                Some(ValidatedResponse::error(e.message()))
            },
            Ok(output) => match validate_block_output(output.as_str()) {
                Err(v) => {
                    proof {
                        lemma_short_circuit(old_outcomes, v.text(), Seq::empty());
                    }
                    Some(ValidatedResponse::error(v.message()))
                },
                Ok(w) => {
                    proof {
                        lemma_combine_push_ok(old_outcomes, w@);
                    }
                    self.reply.append(w.as_str());
                    assert(self.done < self.blocks.len());
                    self.done = self.done + 1;
                    self.results = Ghost(self.results@.push(res));
                    assert(self.outcomes() =~= old_outcomes.push(o));
                    None
                },
            },
        }
    }
}

/// Every outcome of a sequence whose combination succeeds succeeded.
proof fn lemma_prefix_ok(outcomes: Seq<Result<Seq<char>, Seq<char>>>, i: int)
    requires
        combine(outcomes) is Ok,
        0 <= i < outcomes.len(),
    ensures
        outcomes[i] is Ok,
    decreases outcomes.len(),
{
    if i > 0 {
        assert(outcomes.drop_first()[i - 1] == outcomes[i]);
        lemma_prefix_ok(outcomes.drop_first(), i - 1);
    }
}

/// How a command starts.
pub enum CommandStart {
    /// Deliver this content.
    Reply(ValidatedResponse),
    /// Drive this run with `next_action` and `record`.
    Run(RunSession),
}

impl Command {
    pub closed spec fn kind(&self) -> CommandType {
        self.command_type
    }

    pub closed spec fn interaction(&self) -> InteractionData {
        self.data
    }

    /// Classifies the interaction's command name; an unknown name gives no
    /// command.
    pub fn new(data: InteractionData) -> (r: Option<Command>)
        ensures
            r is Some <==> command_kind(data.name@) is Some,
            r matches Some(c) ==> Some(c.kind()) == command_kind(data.name@) && c.interaction()
                == data,
    {
        match classify(data.name.as_str()) {
            Some(command_type) => Some(Command { command_type, data }),
            None => None,
        }
    }

    /// Starts the command. `ping` and `pong` answer at once, whatever the
    /// interaction holds. `run` needs exactly one target message with at
    /// least one fenced block, and then starts a run over its blocks.
    pub fn run(&self) -> (r: CommandStart)
        ensures
            self.kind() == CommandType::Ping ==> (r matches CommandStart::Reply(v) && v@ == (
                "Pong!"@,
                false,
            )),
            self.kind() == CommandType::Pong ==> (r matches CommandStart::Reply(v) && v@ == (
                "Ping!"@,
                false,
            )),
            self.kind() == CommandType::Run ==> match self.interaction().target_content() {
                None => r matches CommandStart::Reply(v) && v@ == (missing_target_text(), true),
                Some(t) => if code_blocks(t).len() == 0 {
                    r matches CommandStart::Reply(v) && v@ == (
                        ExtractionError::NoCodeBlock.text(),
                        true,
                    )
                } else {
                    r matches CommandStart::Run(s) && s.wf() && s.blocks_spec() == code_blocks(t)
                        && s.done_spec() == 0 && s.reply_spec() == Seq::<char>::empty()
                },
            },
    {
        match self.command_type {
            CommandType::Ping => CommandStart::Reply(ValidatedResponse::success(String::from_str("Pong!"))),
            CommandType::Pong => CommandStart::Reply(ValidatedResponse::success(String::from_str("Ping!"))),
            CommandType::Run => match self.data.get_content() {
                None => CommandStart::Reply(
                    ValidatedResponse::error(
                        String::from_str(
                            "ERROR: Couldn't get message content.\nHint: invoke this command from a message's context menu (Apps > run).",
                        ),
                    ),
                ),
                Some(content) => match extract_blocks(content.as_str()) {
                    Err(e) => CommandStart::Reply(ValidatedResponse::error(e.message())),
                    Ok(blocks) => CommandStart::Run(RunSession::new(blocks)),
                },
            },
        }
    }
}

} // verus!
