//! The events a transcript turns into, and the tool calls among them.

use serde_json::Value;
use vstd::prelude::*;

verus! {

/// Something said in the conversation; informational only.
#[derive(Debug, PartialEq, Eq)]
pub struct SpeechTurn {
    pub role: String,
    pub text: String,
}

pub struct SpeechTurnView {
    pub role: Seq<char>,
    pub text: Seq<char>,
}

impl View for SpeechTurn {
    type V = SpeechTurnView;

    open spec fn view(&self) -> SpeechTurnView {
        SpeechTurnView { role: self.role@, text: self.text@ }
    }
}

impl Clone for SpeechTurn {
    fn clone(&self) -> (res: Self)
        ensures
            res == *self,
    {
        SpeechTurn { role: self.role.clone(), text: self.text.clone() }
    }
}

/// A proposed invocation of a named tool.
#[derive(Debug, PartialEq, Eq)]
pub struct ToolCall {
    pub id: String,
    pub tool: String,
    pub args: Value,
    pub requires_confirmation: bool,
}

pub struct ToolCallView {
    pub id: Seq<char>,
    pub tool: Seq<char>,
    pub args: Value,
    pub requires_confirmation: bool,
}

impl View for ToolCall {
    type V = ToolCallView;

    open spec fn view(&self) -> ToolCallView {
        ToolCallView {
            id: self.id@,
            tool: self.tool@,
            args: self.args,
            requires_confirmation: self.requires_confirmation,
        }
    }
}

impl Clone for ToolCall {
    fn clone(&self) -> (res: Self)
        ensures
            res == *self,
    {
        ToolCall {
            id: self.id.clone(),
            tool: self.tool.clone(),
            args: self.args.clone(),
            requires_confirmation: self.requires_confirmation,
        }
    }
}

/// The outcome of running an approved tool call; `id` is that of the call.
#[derive(Debug, PartialEq, Eq)]
pub struct ToolResult {
    pub id: String,
    pub ok: bool,
    pub output: Value,
}

pub struct ToolResultView {
    pub id: Seq<char>,
    pub ok: bool,
    pub output: Value,
}

impl View for ToolResult {
    type V = ToolResultView;

    open spec fn view(&self) -> ToolResultView {
        ToolResultView { id: self.id@, ok: self.ok, output: self.output }
    }
}

/// One outcome of processing a transcript.
#[derive(Debug, PartialEq, Eq)]
pub enum CoreEvent {
    SpeechTurn(SpeechTurn),
    ToolCall(ToolCall),
}

pub enum CoreEventView {
    SpeechTurn(SpeechTurnView),
    ToolCall(ToolCallView),
}

impl View for CoreEvent {
    type V = CoreEventView;

    open spec fn view(&self) -> CoreEventView {
        match self {
            CoreEvent::SpeechTurn(turn) => CoreEventView::SpeechTurn(turn@),
            CoreEvent::ToolCall(call) => CoreEventView::ToolCall(call@),
        }
    }
}

impl Clone for CoreEvent {
    fn clone(&self) -> (res: Self)
        ensures
            res == *self,
    {
        match self {
            CoreEvent::SpeechTurn(turn) => CoreEvent::SpeechTurn(turn.clone()),
            CoreEvent::ToolCall(call) => CoreEvent::ToolCall(call.clone()),
        }
    }
}

/// What a listing shows of a waiting call.
#[derive(Debug, PartialEq, Eq)]
pub struct PendingItem {
    pub id: String,
    pub tool: String,
    pub args: Value,
}

pub struct PendingItemView {
    pub id: Seq<char>,
    pub tool: Seq<char>,
    pub args: Value,
}

impl View for PendingItem {
    type V = PendingItemView;

    open spec fn view(&self) -> PendingItemView {
        PendingItemView { id: self.id@, tool: self.tool@, args: self.args }
    }
}

} // verus!
