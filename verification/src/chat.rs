//! The AI traverser's conversation loop, as decisions: whether to ask the model
//! again, what to do with each content block of a reply, and when the
//! conversation ends. Sending requests and running tools is the caller's part.

use vstd::prelude::*;

use crate::text::{push_str, str_eq, to_string};

verus! {

/// Body of a chat request: one user message.
pub struct ChatReq {
    pub message: String,
}

/// One content block of a model reply, as far as the loop reads it.
pub enum ContentBlock {
    /// A `text` block; the text when it is a string.
    Text(Option<String>),
    /// A `tool_use` block: the tool name and the call id, when they are strings.
    ToolUse { name: Option<String>, id: Option<String> },
    /// Any other block.
    Other,
}

/// A tool the model asked for: its name and the id to answer with (both empty
/// when the reply did not give them as strings).
pub struct ToolRequest {
    pub name: String,
    pub id: String,
}

/// What the loop does next.
#[derive(Clone, Copy, PartialEq, Eq, Structural, Debug)]
pub enum ChatAction {
    /// Send the conversation so far to the model.
    CallModel,
    /// Stop; the reply is the collected text.
    Finish,
}

/// The state of one conversation.
pub struct Traverser {
    max_turns: usize,
    turns: usize,
    finished: bool,
    final_text: String,
}

impl Traverser {
    pub closed spec fn max_turns_spec(&self) -> nat {
        self.max_turns as nat
    }

    /// Model replies handled so far.
    pub closed spec fn turns_spec(&self) -> nat {
        self.turns as nat
    }

    /// The last reply ended the conversation.
    pub closed spec fn finished_spec(&self) -> bool {
        self.finished
    }

    /// The text collected from all text blocks so far, in order.
    pub closed spec fn text_spec(&self) -> Seq<char> {
        self.final_text@
    }

    pub closed spec fn wf(&self) -> bool {
        self.turns <= self.max_turns
    }

    /// The next step of the loop: ask the model while the previous reply asked
    /// for tools and fewer than `max_turns` replies were handled.
    pub open spec fn next_action_spec(&self) -> ChatAction {
        if self.finished_spec() || self.turns_spec() >= self.max_turns_spec() {
            ChatAction::Finish
        } else {
            ChatAction::CallModel
        }
    }

    pub fn new(max_turns: usize) -> (t: Traverser)
        ensures
            t.wf(),
            t.max_turns_spec() == max_turns,
            t.turns_spec() == 0,
            !t.finished_spec(),
            t.text_spec() == Seq::<char>::empty(),
    {
        Traverser { max_turns, turns: 0, finished: false, final_text: String::new() }
    }

    pub fn next_action(&self) -> (r: ChatAction)
        ensures
            r == self.next_action_spec(),
    {
        if self.finished || self.turns >= self.max_turns {
            ChatAction::Finish
        } else {
            ChatAction::CallModel
        }
    }

    /// Reads one block of the current reply: text is collected, a tool use
    /// becomes a tool request, anything else is skipped.
    pub fn absorb(&mut self, block: &ContentBlock) -> (r: Option<ToolRequest>)
        ensures
            final(self).wf() == old(self).wf(),
            final(self).max_turns_spec() == old(self).max_turns_spec(),
            final(self).turns_spec() == old(self).turns_spec(),
            final(self).finished_spec() == old(self).finished_spec(),
            match block {
                ContentBlock::Text(Some(t)) => final(self).text_spec() == old(self).text_spec()
                    + t@ && r is None,
                ContentBlock::Text(None) => final(self).text_spec() == old(self).text_spec()
                    && r is None,
                ContentBlock::ToolUse { name, id } => final(self).text_spec()
                    == old(self).text_spec() && (r matches Some(q) && q.name@ == (match name {
                    Some(n) => n@,
                    None => Seq::<char>::empty(),
                }) && q.id@ == (match id {
                    Some(i) => i@,
                    None => Seq::<char>::empty(),
                })),
                ContentBlock::Other => final(self).text_spec() == old(self).text_spec() && r is None,
            },
    {
        match block {
            ContentBlock::Text(Some(t)) => {
                push_str(&mut self.final_text, t.as_str());
                None
            },
            ContentBlock::Text(None) => None,
            ContentBlock::ToolUse { name, id } => {
                let name = match name {
                    Some(n) => to_string(n.as_str()),
                    None => String::new(),
                };
                let id = match id {
                    Some(i) => to_string(i.as_str()),
                    None => String::new(),
                };
                Some(ToolRequest { name, id })
            },
            ContentBlock::Other => None,
        }
    }

    /// Ends the handling of one reply: the conversation goes on only when the
    /// model stopped for tool use and at least one tool result is to be sent.
    pub fn end_turn(&mut self, stop_reason: &str, tool_results: usize)
        requires
            old(self).wf(),
            old(self).next_action_spec() == ChatAction::CallModel,
        ensures
            final(self).wf(),
            final(self).max_turns_spec() == old(self).max_turns_spec(),
            final(self).turns_spec() == old(self).turns_spec() + 1,
            final(self).text_spec() == old(self).text_spec(),
            final(self).finished_spec() == !(stop_reason@ == "tool_use"@ && tool_results > 0),
    {
        self.turns = self.turns + 1;
        self.finished = !(str_eq(stop_reason, "tool_use") && tool_results > 0);
    }

    /// The collected reply text.
    pub fn text(&self) -> (r: String)
        ensures
            r@ == self.text_spec(),
    {
        to_string(self.final_text.as_str())
    }
}

/// However the model answers, a conversation asks it at most `max_turns` times:
/// after `max_turns` replies the loop finishes.
pub proof fn law_turns_bounded(t: Traverser)
    requires
        t.wf(),
    ensures
        t.turns_spec() <= t.max_turns_spec(),
        t.turns_spec() == t.max_turns_spec() ==> t.next_action_spec() == ChatAction::Finish,
{
}

} // verus!
