//! The conversation kept for the language model, and the decisions of the
//! generation worker: when a generation starts, when streaming stops, and
//! what the conversation keeps of a finished generation.
use vstd::prelude::*;

verus! {

/// Role of a message in the conversation.
#[derive(Clone, Copy, Debug, PartialEq, Eq, Structural)]
pub enum MessageRole {
    /// System prompt.
    System,
    /// User input.
    User,
    /// Assistant response.
    Assistant,
}

/// A message of the conversation.
#[derive(Clone, Debug)]
pub struct Message {
    /// Who sent it.
    pub role: MessageRole,
    /// What it says.
    pub content: String,
}

/// A message as a role and its text.
pub open spec fn message_view(m: Message) -> (MessageRole, Seq<char>) {
    (m.role, m.content@)
}

impl Message {
    /// A message with the given role and content.
    pub fn new(role: MessageRole, content: &str) -> (m: Self)
        ensures
            m.role == role,
            m.content@ == content@,
    {
        Message { role, content: String::from_str(content) }
    }

    /// A system message.
    pub fn system(content: &str) -> (m: Self)
        ensures
            m.role == MessageRole::System,
            m.content@ == content@,
    {
        Message::new(MessageRole::System, content)
    }

    /// A user message.
    pub fn user(content: &str) -> (m: Self)
        ensures
            m.role == MessageRole::User,
            m.content@ == content@,
    {
        Message::new(MessageRole::User, content)
    }

    /// An assistant message.
    pub fn assistant(content: &str) -> (m: Self)
        ensures
            m.role == MessageRole::Assistant,
            m.content@ == content@,
    {
        Message::new(MessageRole::Assistant, content)
    }

    /// An exact copy.
    pub fn copy(&self) -> (m: Self)
        ensures
            m == *self,
    {
        Message { role: self.role, content: self.content.clone() }
    }
}

/// The conversation: a system prompt and the history after it.
#[derive(Clone, Debug)]
pub struct ConversationContext {
    system_prompt: String,
    messages: Vec<Message>,
}

impl ConversationContext {
    /// The system prompt.
    pub closed spec fn prompt(&self) -> Seq<char> {
        self.system_prompt@
    }

    /// The history, oldest first, as roles and texts.
    pub closed spec fn history(&self) -> Seq<(MessageRole, Seq<char>)> {
        self.messages@.map_values(|m: Message| message_view(m))
    }

    /// An empty conversation with a system prompt.
    pub fn new(system_prompt: &str) -> (c: Self)
        ensures
            c.prompt() == system_prompt@,
            c.history() == Seq::<(MessageRole, Seq<char>)>::empty(),
    {
        let c = ConversationContext { system_prompt: String::from_str(system_prompt), messages: Vec::new() };
        proof {
            assert(c.history() =~= Seq::<(MessageRole, Seq<char>)>::empty());
        }
        c
    }

    /// Appends a user message to the history.
    pub fn add_user_message(&mut self, content: &str)
        ensures
            final(self).prompt() == old(self).prompt(),
            final(self).history() == old(self).history().push((MessageRole::User, content@)),
    {
        self.messages.push(Message::user(content));
        proof {
            assert(self.history() =~= old(self).history().push((MessageRole::User, content@)));
        }
    }

    /// Appends an assistant message to the history.
    pub fn add_assistant_message(&mut self, content: &str)
        ensures
            final(self).prompt() == old(self).prompt(),
            final(self).history() == old(self).history().push((MessageRole::Assistant, content@)),
    {
        self.messages.push(Message::assistant(content));
        proof {
            assert(self.history() =~= old(self).history().push(
                (MessageRole::Assistant, content@),
            ));
        }
    }

    /// Clears the history; the system prompt stays.
    pub fn clear(&mut self)
        ensures
            final(self).prompt() == old(self).prompt(),
            final(self).history() == Seq::<(MessageRole, Seq<char>)>::empty(),
    {
        self.messages = Vec::new();
        proof {
            assert(self.history() =~= Seq::<(MessageRole, Seq<char>)>::empty());
        }
    }

    /// Every message, the system prompt first.
    pub fn messages(&self) -> (ms: Vec<Message>)
        ensures
            ms@.map_values(|m: Message| message_view(m)) == seq![
                (MessageRole::System, self.prompt()),
            ] + self.history(),
    {
        let mut result: Vec<Message> = Vec::new();
        result.push(Message::system(self.system_prompt.as_str()));
        let n = self.messages.len();
        let mut i: usize = 0;
        while i < n
            invariant
                i <= n,
                n == self.messages@.len(),
                result@.len() == i + 1,
                result@[0].role == MessageRole::System,
                result@[0].content@ == self.system_prompt@,
                forall|k: int| 0 <= k < i ==> #[trigger] result@[k + 1] == self.messages@[k],
            decreases n - i,
        {
            result.push(self.messages[i].copy());
            i = i + 1;
        }
        proof {
            let lhs = result@.map_values(|m: Message| message_view(m));
            let rhs = seq![(MessageRole::System, self.prompt())] + self.history();
            assert(lhs.len() == rhs.len());
            assert forall|k: int| 0 <= k < lhs.len() implies lhs[k] == rhs[k] by {
                if k > 0 {
                    assert(result@[(k - 1) + 1] == self.messages@[k - 1]);
                }
            }
            assert(lhs =~= rhs);
        }
        result
    }

    /// The system prompt.
    pub fn system_prompt(&self) -> (s: &str)
        ensures
            s@ == self.prompt(),
    {
        self.system_prompt.as_str()
    }

    /// Replaces the system prompt; the history stays.
    pub fn set_system_prompt(&mut self, prompt: &str)
        ensures
            final(self).prompt() == prompt@,
            final(self).history() == old(self).history(),
    {
        self.system_prompt = String::from_str(prompt);
    }

    /// The number of messages in the history, the system prompt excluded.
    pub fn message_count(&self) -> (n: usize)
        ensures
            n == self.history().len(),
    {
        self.messages.len()
    }
}

/// Commands for the generation worker.
#[derive(Clone, Debug)]
pub enum LLMCommand {
    /// Generate a response to the input text.
    Generate(String),
    /// Stop the current generation.
    Stop,
    /// Forget the conversation; the system prompt stays.
    ClearHistory,
    /// Shut the worker down.
    Shutdown,
}

/// Events of the generation worker.
#[derive(Clone, Debug)]
pub enum LLMEvent {
    /// A generation started.
    Started,
    /// A streamed token.
    Token(String),
    /// A generation finished.
    Complete {
        /// The whole response.
        response: String,
        /// Whether it was interrupted.
        interrupted: bool,
    },
    /// An error occurred.
    Error(String),
    /// The worker shut down.
    Shutdown,
}

/// How the model's weights are quantized.
#[derive(Clone, Copy, Debug, PartialEq, Eq, Structural)]
pub enum QuantizationType {
    /// No quantization: full precision.
    Full,
    /// 4-bit (Q4K), the default.
    Q4K,
    /// 8-bit (Q8_0).
    Q8_0,
    /// 4-bit (Q4_0).
    Q4_0,
}

impl Default for QuantizationType {
    fn default() -> (q: Self)
        ensures
            q == QuantizationType::Q4K,
    {
        QuantizationType::Q4K
    }
}

/// The system prompt the generation worker starts with.
pub open spec fn default_system_prompt() -> Seq<char> {
    "You are a helpful AI assistant. Respond concisely and accurately."@
}

/// What the worker does with one command.
pub enum WorkerDecision {
    /// Announce `Started` and generate from these messages.
    Generate(Vec<Message>),
    /// Nothing more to do for this command.
    Idle,
    /// Leave the loop.
    Exit,
}

/// The generation worker's state: the conversation and the stop flag.
pub struct LLMWorkerState {
    pub context: ConversationContext,
    pub should_stop: bool,
}

impl LLMWorkerState {
    /// The worker's state after its model has loaded.
    pub fn new() -> (w: Self)
        ensures
            w.context.prompt() == default_system_prompt(),
            w.context.history() == Seq::<(MessageRole, Seq<char>)>::empty(),
            !w.should_stop,
    {
        LLMWorkerState {
            context: ConversationContext::new(
                "You are a helpful AI assistant. Respond concisely and accurately.",
            ),
            should_stop: false,
        }
    }

    /// Decides what to do with a command. `Generate` clears the stop flag,
    /// appends the input as a user message and generates from the whole
    /// conversation; `Stop` sets the stop flag; `Shutdown` leaves.
    pub fn on_command(&mut self, cmd: LLMCommand) -> (d: WorkerDecision)
        ensures
            match cmd {
                LLMCommand::Generate(input) => {
                    &&& !final(self).should_stop
                    &&& final(self).context.prompt() == old(self).context.prompt()
                    &&& final(self).context.history() == old(self).context.history().push(
                        (MessageRole::User, input@),
                    )
                    &&& d matches WorkerDecision::Generate(ms) && ms@.map_values(
                        |m: Message| message_view(m),
                    ) == seq![(MessageRole::System, final(self).context.prompt())]
                        + final(self).context.history()
                },
                LLMCommand::Stop => {
                    &&& final(self).should_stop
                    &&& final(self).context == old(self).context
                    &&& d is Idle
                },
                LLMCommand::ClearHistory => {
                    &&& final(self).should_stop == old(self).should_stop
                    &&& final(self).context.prompt() == old(self).context.prompt()
                    &&& final(self).context.history() == Seq::<(MessageRole, Seq<char>)>::empty()
                    &&& d is Idle
                },
                LLMCommand::Shutdown => {
                    &&& *final(self) == *old(self)
                    &&& d is Exit
                },
            },
    {
        match cmd {
            LLMCommand::Generate(input) => {
                self.should_stop = false;
                self.context.add_user_message(input.as_str());
                WorkerDecision::Generate(self.context.messages())
            },
            LLMCommand::Stop => {
                self.should_stop = true;
                WorkerDecision::Idle
            },
            LLMCommand::ClearHistory => {
                self.context.clear();
                WorkerDecision::Idle
            },
            LLMCommand::Shutdown => WorkerDecision::Exit,
        }
    }

    /// Records the outcome of a generation and returns the event to send:
    /// an uninterrupted response joins the conversation as an assistant
    /// message; an interrupted one does not.
    pub fn on_generation_finished(&mut self, outcome: Result<(String, bool), String>) -> (e: LLMEvent)
        ensures
            final(self).should_stop == old(self).should_stop,
            final(self).context.prompt() == old(self).context.prompt(),
            match outcome {
                Ok((response, interrupted)) => {
                    &&& e matches LLMEvent::Complete { response: r, interrupted: i } && r == response
                        && i == interrupted
                    &&& final(self).context.history() == if interrupted {
                        old(self).context.history()
                    } else {
                        old(self).context.history().push((MessageRole::Assistant, response@))
                    }
                },
                Err(err) => {
                    &&& e matches LLMEvent::Error(m) && m == err
                    &&& final(self).context.history() == old(self).context.history()
                },
            },
    {
        match outcome {
            Ok((response, interrupted)) => {
                if !interrupted {
                    self.context.add_assistant_message(response.as_str());
                }
                LLMEvent::Complete { response, interrupted }
            },
            Err(err) => LLMEvent::Error(err),
        }
    }
}

/// The state of one streaming generation.
pub struct StreamState {
    /// The tokens received so far.
    pub response: String,
    /// Whether the generation was interrupted.
    pub interrupted: bool,
    /// The worker's stop flag.
    pub should_stop: bool,
    /// A request to clear the conversation arrived meanwhile; it applies
    /// once the generation is over.
    pub clear_requested: bool,
    /// A request to shut down arrived meanwhile; the worker leaves once the
    /// generation is over.
    pub shutdown_requested: bool,
}

/// Whether streaming goes on.
#[derive(Clone, Copy, Debug, PartialEq, Eq, Structural)]
pub enum StreamControl {
    /// Wait for the next token.
    Continue,
    /// Stop streaming.
    Stop,
}

impl StreamState {
    /// A fresh generation with the worker's stop flag.
    pub fn new(should_stop: bool) -> (s: Self)
        ensures
            s.response@ == Seq::<char>::empty(),
            !s.interrupted,
            s.should_stop == should_stop,
            !s.clear_requested,
            !s.shutdown_requested,
    {
        StreamState {
            response: String::new(),
            interrupted: false,
            should_stop,
            clear_requested: false,
            shutdown_requested: false,
        }
    }

    /// Decides, before waiting for a token, whether to go on: a pending
    /// `Stop` sets the stop flag and interrupts; a pending `Shutdown`
    /// interrupts and is kept, so that the worker leaves afterwards; a
    /// pending `ClearHistory` is kept for after the generation; a pending
    /// `Generate` is ignored; a set stop flag interrupts.
    pub fn check(&mut self, pending: Option<LLMCommand>) -> (c: StreamControl)
        ensures
            final(self).response == old(self).response,
            final(self).should_stop == (old(self).should_stop || pending matches Some(
                LLMCommand::Stop,
            )),
            c == (if pending matches Some(LLMCommand::Stop) || pending matches Some(
                LLMCommand::Shutdown,
            ) || old(self).should_stop {
                StreamControl::Stop
            } else {
                StreamControl::Continue
            }),
            final(self).interrupted == (old(self).interrupted || c == StreamControl::Stop),
            final(self).clear_requested == (old(self).clear_requested || pending matches Some(
                LLMCommand::ClearHistory,
            )),
            final(self).shutdown_requested == (old(self).shutdown_requested || pending matches Some(
                LLMCommand::Shutdown,
            )),
    {
        match pending {
            Some(LLMCommand::Stop) => {
                self.should_stop = true;
                self.interrupted = true;
                return StreamControl::Stop;
            },
            Some(LLMCommand::Shutdown) => {
                self.shutdown_requested = true;
                self.interrupted = true;
                return StreamControl::Stop;
            },
            Some(LLMCommand::ClearHistory) => {
                self.clear_requested = true;
            },
            _ => {},
        }
        if self.should_stop {
            self.interrupted = true;
            StreamControl::Stop
        } else {
            StreamControl::Continue
        }
    }

    /// A token arrived: it is appended to the response and is the event to
    /// send.
    pub fn on_token(&mut self, token: String) -> (e: LLMEvent)
        ensures
            final(self).response@ == old(self).response@ + token@,
            final(self).interrupted == old(self).interrupted,
            final(self).should_stop == old(self).should_stop,
            final(self).clear_requested == old(self).clear_requested,
            final(self).shutdown_requested == old(self).shutdown_requested,
            e matches LLMEvent::Token(t) && t == token,
    {
        self.response.append(token.as_str());
        LLMEvent::Token(token)
    }

    /// Sending a token event failed: the generation is interrupted.
    pub fn on_send_failed(&mut self) -> (c: StreamControl)
        ensures
            final(self).response == old(self).response,
            final(self).interrupted,
            final(self).should_stop == old(self).should_stop,
            final(self).clear_requested == old(self).clear_requested,
            final(self).shutdown_requested == old(self).shutdown_requested,
            c == StreamControl::Stop,
    {
        self.interrupted = true;
        StreamControl::Stop
    }

    /// The response and whether it was interrupted.
    pub fn finish(self) -> (r: (String, bool))
        ensures
            r.0 == self.response,
            r.1 == self.interrupted,
    {
        (self.response, self.interrupted)
    }
}

} // verus!
