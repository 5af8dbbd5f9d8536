//! The chain of messages behind a failure.

use vstd::prelude::*;
use crate::text::{append_chained, chained, texts};

verus! {

/// The originating error of a failure, as the messages of its causal chain:
/// first the error's own message, then that of its cause, and so on. A chain
/// has at least one message.
#[derive(Debug)]
pub struct Cause {
    messages: Vec<String>,
}

impl View for Cause {
    type V = Seq<Seq<char>>;

    closed spec fn view(&self) -> Seq<Seq<char>> {
        texts(self.messages@)
    }
}

impl Clone for Cause {
    fn clone(&self) -> (copy: Cause)
        ensures
            copy@ == self@,
    {
        proof {
            use_type_invariant(self);
        }
        let mut messages: Vec<String> = Vec::new();
        let mut i: usize = 0;
        while i < self.messages.len()
            invariant
                i <= self.messages.len(),
                messages@ == self.messages@.take(i as int),
            decreases self.messages.len() - i,
        {
            messages.push(self.messages[i].clone());
            assert(messages@ =~= self.messages@.take(i + 1));
            i = i + 1;
        }
        assert(messages@ =~= self.messages@);
        Cause { messages }
    }
}

impl Cause {
    #[verifier::type_invariant]
    spec fn inv(self) -> bool {
        self.messages.len() > 0
    }

    /// The text of a chain: its messages joined by a colon and a space.
    pub open spec fn text_of(chain: Seq<Seq<char>>) -> Seq<char> {
        if chain.len() == 0 {
            Seq::empty()
        } else {
            chain[0] + chained(chain.skip(1))
        }
    }

    /// An error that has no cause of its own.
    pub fn new(message: String) -> (cause: Cause)
        ensures
            cause@ == seq![message@],
    {
        let mut messages: Vec<String> = Vec::new();
        messages.push(message);
        let cause = Cause { messages };
        assert(cause@ =~= seq![message@]);
        cause
    }

    /// This error with `inner` as the cause at the end of its chain.
    pub fn caused_by(self, inner: Cause) -> (cause: Cause)
        ensures
            cause@ == self@ + inner@,
    {
        proof {
            use_type_invariant(&self);
        }
        let mut messages = self.messages;
        let mut rest = inner.messages;
        messages.append(&mut rest);
        let cause = Cause { messages };
        assert(cause@ =~= self@ + inner@);
        cause
    }

    /// The number of messages in the chain.
    pub fn len(&self) -> (n: usize)
        ensures
            n == self@.len(),
            n > 0,
    {
        proof {
            use_type_invariant(self);
        }
        self.messages.len()
    }

    /// The message at place `i` of the chain, the error's own being at 0.
    pub fn message(&self, i: usize) -> (m: &str)
        requires
            i < self@.len(),
        ensures
            m@ == self@[i as int],
    {
        self.messages[i].as_str()
    }

    /// Appends each message of the chain to `text`, with a colon and a
    /// space before it.
    pub fn append_to(&self, text: &mut String)
        ensures
            final(text)@ == old(text)@ + chained(self@),
    {
        append_chained(text, &self.messages);
    }

    /// The whole chain in one line.
    pub fn to_text(&self) -> (text: String)
        ensures
            text@ == Cause::text_of(self@),
    {
        let mut text = String::new();
        let mut i: usize = 0;
        while i < self.messages.len()
            invariant
                i <= self.messages.len(),
                text@ == Cause::text_of(self@.take(i as int)),
            decreases self.messages.len() - i,
        {
            if i > 0 {
                text.append(": ");
            }
            text.append(self.messages[i].as_str());
            proof {
                let done = self@.take(i as int);
                let next = self@.take(i + 1);
                if i > 0 {
                    assert(next.skip(1).drop_last() =~= done.skip(1));
                    assert(next.skip(1).last() == self@[i as int]);
                    assert(next[0] == done[0]);
                } else {
                    assert(next.skip(1) =~= Seq::<Seq<char>>::empty());
                    assert(done =~= Seq::<Seq<char>>::empty());
                }
                assert(text@ =~= Cause::text_of(next));
            }
            i = i + 1;
        }
        proof {
            assert(self@.take(i as int) =~= self@);
        }
        text
    }
}

} // verus!
