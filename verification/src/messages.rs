//! Commands for the engine, and the mailbox they wait in.
//!
//! Any caller may enqueue a `Message`; the engine drains the mailbox exactly
//! once per tick and applies the drained batch in arrival order. The mailbox
//! here is a plain owned queue: the embedding shell decides how to share it
//! between producers and the engine (typically behind a mutual-exclusion
//! lock, locked once per append and once per drain).

use vstd::prelude::*;
use crate::log::{LogMsg, LogMsgView};

verus! {

/// The mathematical shape of a message.
pub enum MessageView {
    SetFrameRate(u32),
    Start,
    Stop,
    Kill,
    Say(Seq<char>),
    ChangeTitle(Seq<char>),
    SetCanvasId(Seq<char>),
    Log(LogMsgView),
    Null,
}

/// A command for the engine, applied during the next drain.
///
/// `SetFrameRate` carries the requested rate as the bit pattern of an
/// IEEE-754 single-precision number; the engine treats the request as a
/// deliberate no-op (frame pacing is the shell's concern), so the bits ride
/// through unread. `Null` is likewise a deliberate no-op kept for callers
/// that probe the boundary.
#[derive(Debug)]
pub enum Message {
    SetFrameRate(u32),
    Start,
    Stop,
    Kill,
    Say(String),
    ChangeTitle(String),
    SetCanvasId(String),
    Log(LogMsg),
    Null,
}

impl View for Message {
    type V = MessageView;

    open spec fn view(&self) -> MessageView {
        match self {
            Message::SetFrameRate(bits) => MessageView::SetFrameRate(*bits),
            Message::Start => MessageView::Start,
            Message::Stop => MessageView::Stop,
            Message::Kill => MessageView::Kill,
            Message::Say(t) => MessageView::Say(t@),
            Message::ChangeTitle(t) => MessageView::ChangeTitle(t@),
            Message::SetCanvasId(t) => MessageView::SetCanvasId(t@),
            Message::Log(record) => MessageView::Log(record@),
            Message::Null => MessageView::Null,
        }
    }
}

impl DeepView for Message {
    type V = MessageView;

    open spec fn deep_view(&self) -> MessageView {
        self@
    }
}

impl Clone for Message {
    fn clone(&self) -> (r: Self)
        ensures
            r@ == self@,
    {
        match self {
            Message::SetFrameRate(bits) => Message::SetFrameRate(*bits),
            Message::Start => Message::Start,
            Message::Stop => Message::Stop,
            Message::Kill => Message::Kill,
            Message::Say(t) => Message::Say(t.clone()),
            Message::ChangeTitle(t) => Message::ChangeTitle(t.clone()),
            Message::SetCanvasId(t) => Message::SetCanvasId(t.clone()),
            Message::Log(record) => Message::Log(record.clone()),
            Message::Null => Message::Null,
        }
    }
}

/// The mailbox of pending messages, in arrival order.
pub struct MessageQueue {
    msgs: Vec<Message>,
}

impl View for MessageQueue {
    type V = Seq<MessageView>;

    closed spec fn view(&self) -> Seq<MessageView> {
        self.msgs.deep_view()
    }
}

impl MessageQueue {
    /// An empty mailbox.
    pub fn new() -> (q: Self)
        ensures
            q@ == Seq::<MessageView>::empty(),
    {
        let q = MessageQueue { msgs: Vec::new() };
        proof {
            assert(q.msgs.deep_view() =~= Seq::<MessageView>::empty());
        }
        q
    }

    /// Appends one message behind all pending ones.
    pub fn enqueue(&mut self, message: Message)
        ensures
            final(self)@ == old(self)@.push(message@),
    {
        let ghost m = message@;
        self.msgs.push(message);
        proof {
            assert(self.msgs.deep_view() =~= old(self).msgs.deep_view().push(m));
        }
    }

    /// How many messages are pending.
    pub fn len(&self) -> (n: usize)
        ensures
            n == self@.len(),
    {
        self.msgs.len()
    }

    /// Atomically takes every pending message, in arrival order, and leaves
    /// the mailbox empty. A message enqueued after this call lands in the
    /// next drain.
    pub fn drain_and_clear(&mut self) -> (drained: Vec<Message>)
        ensures
            drained.deep_view() == old(self)@,
            final(self)@ == Seq::<MessageView>::empty(),
    {
        let mut taken: Vec<Message> = Vec::new();
        core::mem::swap(&mut taken, &mut self.msgs);
        proof {
            assert(self.msgs.deep_view() =~= Seq::<MessageView>::empty());
        }
        taken
    }
}

} // verus!
