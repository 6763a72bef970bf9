//! The per-message exchange: from an inbound message to one reply, as a state
//! machine. The caller performs each action and hands back what came of it.
use vstd::prelude::*;
use crate::delivery::{Delivery, DeliveryView};
use crate::response::{Failure, raw_outcome, respond_to_raw};

verus! {

/// The generation model that replies are asked of.
#[derive(PartialEq, Eq, Structural, Clone, Copy, Debug)]
pub enum Model {
    Gemini15Pro002,
}

/// One request to the generation service. Conversation memory is never kept:
/// every request stands alone.
pub struct GenerationRequest {
    pub model: Model,
    pub instruction: String,
    pub input_text: String,
    pub remember: bool,
}

pub struct RequestView {
    pub model: Model,
    pub instruction: Seq<char>,
    pub input_text: Seq<char>,
    pub remember: bool,
}

impl View for GenerationRequest {
    type V = RequestView;

    open spec fn view(&self) -> RequestView {
        RequestView {
            model: self.model,
            instruction: self.instruction@,
            input_text: self.input_text@,
            remember: self.remember,
        }
    }
}

/// The request for a message text: the text verbatim, the configured
/// instruction, the fixed model, no memory.
pub open spec fn request_of(instruction: Seq<char>, text: Seq<char>) -> RequestView {
    RequestView { model: Model::Gemini15Pro002, instruction, input_text: text, remember: false }
}

/// A message as the gateway delivers it.
pub struct InboundMessage {
    pub author_is_bot: bool,
    pub channel_id: u64,
    pub content: String,
}

pub struct MessageView {
    pub author_is_bot: bool,
    pub channel_id: u64,
    pub content: Seq<char>,
}

impl View for InboundMessage {
    type V = MessageView;

    open spec fn view(&self) -> MessageView {
        MessageView {
            author_is_bot: self.author_is_bot,
            channel_id: self.channel_id,
            content: self.content@,
        }
    }
}

/// What the caller reports to the exchange.
pub enum Event {
    Received(InboundMessage),
    TypingStarted,
    /// The raw HTTP response of the generation service.
    Generated(String),
    GenerationFailed,
    Delivered,
    DeliveryFailed,
}

pub enum EventView {
    Received(MessageView),
    TypingStarted,
    Generated(Seq<char>),
    GenerationFailed,
    Delivered,
    DeliveryFailed,
}

impl View for Event {
    type V = EventView;

    open spec fn view(&self) -> EventView {
        match self {
            Event::Received(m) => EventView::Received(m@),
            Event::TypingStarted => EventView::TypingStarted,
            Event::Generated(raw) => EventView::Generated(raw@),
            Event::GenerationFailed => EventView::GenerationFailed,
            Event::Delivered => EventView::Delivered,
            Event::DeliveryFailed => EventView::DeliveryFailed,
        }
    }
}

/// What the exchange asks the caller to do next.
pub enum Action {
    /// Nothing: the event is ignored, or the exchange is over.
    Nothing,
    /// Show the typing indicator in the channel, for at least half a second.
    StartTyping { channel: u64 },
    Generate(GenerationRequest),
    Send { channel: u64, delivery: Delivery },
    /// Release the typing indicator; `failure` says why no reply went out.
    StopTyping { channel: u64, failure: Option<Failure> },
}

pub enum ActionView {
    Nothing,
    StartTyping { channel: u64 },
    Generate(RequestView),
    Send { channel: u64, delivery: DeliveryView },
    StopTyping { channel: u64, failure: Option<Failure> },
}

impl View for Action {
    type V = ActionView;

    open spec fn view(&self) -> ActionView {
        match self {
            Action::Nothing => ActionView::Nothing,
            Action::StartTyping { channel } => ActionView::StartTyping { channel: *channel },
            Action::Generate(r) => ActionView::Generate(r@),
            Action::Send { channel, delivery } => ActionView::Send {
                channel: *channel,
                delivery: delivery@,
            },
            Action::StopTyping { channel, failure } => ActionView::StopTyping {
                channel: *channel,
                failure: *failure,
            },
        }
    }
}

#[derive(PartialEq, Eq, Structural, Clone, Copy, Debug)]
pub enum Stage {
    /// No message yet.
    Idle,
    /// The typing indicator is being started.
    Typing,
    /// The request is with the generation service.
    Generating,
    /// The reply is being sent.
    Delivering,
    /// Over: the message was ignored, or the indicator released.
    Done,
}

/// The handling of one inbound message.
pub struct Exchange {
    pub stage: Stage,
    pub channel: u64,
    pub text: String,
    pub instruction: String,
}

pub struct ExchangeView {
    pub stage: Stage,
    pub channel: u64,
    pub text: Seq<char>,
    pub instruction: Seq<char>,
}

impl View for Exchange {
    type V = ExchangeView;

    open spec fn view(&self) -> ExchangeView {
        ExchangeView {
            stage: self.stage,
            channel: self.channel,
            text: self.text@,
            instruction: self.instruction@,
        }
    }
}

pub open spec fn initial(instruction: Seq<char>) -> ExchangeView {
    ExchangeView { stage: Stage::Idle, channel: 0, text: Seq::empty(), instruction }
}

pub open spec fn at(s: ExchangeView, stage: Stage) -> ExchangeView {
    ExchangeView { stage, ..s }
}

/// The next state and action of the exchange on an event. An event that does
/// not fit the stage changes nothing.
pub open spec fn next(s: ExchangeView, e: EventView) -> (ExchangeView, ActionView) {
    let stay = (s, ActionView::Nothing);
    let release = |f: Option<Failure>|
        (at(s, Stage::Done), ActionView::StopTyping { channel: s.channel, failure: f });
    match s.stage {
        Stage::Idle => match e {
            EventView::Received(m) => if m.author_is_bot {
                (at(s, Stage::Done), ActionView::Nothing)
            } else {
                (
                    ExchangeView {
                        stage: Stage::Typing,
                        channel: m.channel_id,
                        text: m.content,
                        instruction: s.instruction,
                    },
                    ActionView::StartTyping { channel: m.channel_id },
                )
            },
            _ => stay,
        },
        Stage::Typing => match e {
            EventView::TypingStarted => (
                at(s, Stage::Generating),
                ActionView::Generate(request_of(s.instruction, s.text)),
            ),
            _ => stay,
        },
        Stage::Generating => match e {
            EventView::Generated(raw) => match raw_outcome(raw) {
                Ok(d) => (at(s, Stage::Delivering), ActionView::Send { channel: s.channel, delivery: d }),
                Err(f) => release(Some(f)),
            },
            EventView::GenerationFailed => release(Some(Failure::Generation)),
            _ => stay,
        },
        Stage::Delivering => match e {
            EventView::Delivered => release(None),
            EventView::DeliveryFailed => release(Some(Failure::Delivery)),
            _ => stay,
        },
        Stage::Done => stay,
    }
}

impl Exchange {
    /// A fresh exchange whose requests carry `instruction`.
    pub fn new(instruction: String) -> (r: Exchange)
        ensures
            r@ == initial(instruction@),
    {
        Exchange { stage: Stage::Idle, channel: 0, text: String::new(), instruction }
    }

    fn release(&mut self, failure: Option<Failure>) -> (a: Action)
        ensures
            final(self)@ == at(old(self)@, Stage::Done),
            a@ == (ActionView::StopTyping { channel: old(self).channel, failure }),
    {
        self.stage = Stage::Done;
        Action::StopTyping { channel: self.channel, failure }
    }

    /// Takes one event and says what to do next.
    pub fn step(&mut self, event: Event) -> (a: Action)
        ensures
            (final(self)@, a@) == next(old(self)@, event@),
    {
        match self.stage {
            Stage::Idle => match event {
                Event::Received(m) => {
                    if m.author_is_bot {
                        self.stage = Stage::Done;
                        Action::Nothing
                    } else {
                        self.stage = Stage::Typing;
                        self.channel = m.channel_id;
                        self.text = m.content;
                        Action::StartTyping { channel: m.channel_id }
                    }
                },
                _ => Action::Nothing,
            },
            Stage::Typing => match event {
                Event::TypingStarted => {
                    self.stage = Stage::Generating;
                    Action::Generate(
                        GenerationRequest {
                            model: Model::Gemini15Pro002,
                            instruction: self.instruction.clone(),
                            input_text: self.text.clone(),
                            remember: false,
                        },
                    )
                },
                _ => Action::Nothing,
            },
            Stage::Generating => match event {
                Event::Generated(raw) => {
                    match respond_to_raw(raw.as_str()) {
                        Ok(d) => {
                            self.stage = Stage::Delivering;
                            Action::Send { channel: self.channel, delivery: d }
                        },
                        Err(f) => self.release(Some(f)),
                    }
                },
                Event::GenerationFailed => self.release(Some(Failure::Generation)),
                _ => Action::Nothing,
            },
            Stage::Delivering => match event {
                Event::Delivered => self.release(None),
                Event::DeliveryFailed => self.release(Some(Failure::Delivery)),
                _ => Action::Nothing,
            },
            Stage::Done => Action::Nothing,
        }
    }
}

} // verus!
