use vstd::prelude::*;

use crate::error::{Cause, Error};

verus! {

impl Error {
    /// The display texts from this failure down to its root cause: its own
    /// message first, then the chain of the cause it wraps, if any.
    pub open spec fn chain(self) -> Seq<Seq<char>> {
        seq![self.message_text()] + match self.cause() {
            Some(c) => c.chain(),
            None => Seq::empty(),
        }
    }
}

/// One element of a cause chain: the failure itself, or a cause below it.
#[derive(Clone, Copy, Debug)]
pub enum Link<'a> {
    Failure(&'a Error),
    Cause(&'a Cause),
}

impl<'a> Link<'a> {
    /// The text this element displays.
    pub open spec fn text(self) -> Seq<char> {
        match self {
            Link::Failure(e) => e.message_text(),
            Link::Cause(c) => c.text@,
        }
    }

    /// The display texts from this element down to the root cause.
    pub open spec fn chain(self) -> Seq<Seq<char>> {
        match self {
            Link::Failure(e) => e.chain(),
            Link::Cause(c) => c.chain(),
        }
    }

    /// The element that caused this one, if any.
    pub open spec fn next_link(self) -> Option<Link<'a>> {
        match self {
            Link::Failure(e) => match e.cause() {
                Some(c) => Some(Link::Cause(&c)),
                None => None,
            },
            Link::Cause(c) => match c.source {
                Some(inner) => Some(Link::Cause(&*inner)),
                None => None,
            },
        }
    }

    /// A chain is this element's own text followed by the chain of its cause.
    pub proof fn lemma_chain_unfolds(self)
        ensures
            self.chain() == seq![self.text()] + match self.next_link() {
                Some(n) => n.chain(),
                None => Seq::empty(),
            },
            self.chain().len() > 0,
            self.chain()[0] == self.text(),
    {
        match self {
            Link::Failure(e) => {},
            Link::Cause(c) => {
                if c.source is None {
                    assert(c.chain() == seq![c.text@] + Seq::<Seq<char>>::empty());
                }
            },
        }
    }

    /// The text this element displays.
    pub fn message(&self) -> (r: String)
        ensures
            r@ == self.text(),
    {
        match self {
            Link::Failure(e) => e.message(),
            Link::Cause(c) => c.text.clone(),
        }
    }

    /// The element that caused this one, if any.
    pub fn source(&self) -> (r: Option<Link<'a>>)
        ensures
            r == self.next_link(),
    {
        match *self {
            Link::Failure(e) => match e {
                Error::TreeSitterQuery(c)
                | Error::TreeSitterHighlight(c)
                | Error::Bind(c)
                | Error::Serve(c)
                | Error::DeserializePostMetadata(_, c)
                | Error::DeserializeProjects(c) => Some(Link::Cause(c)),
                _ => None,
            },
            Link::Cause(c) => match &c.source {
                Some(inner) => Some(Link::Cause(&**inner)),
                None => None,
            },
        }
    }
}

/// Walks a failure's chain of causes, from the failure itself down to its
/// root cause.
#[derive(Clone, Copy, Debug)]
pub struct ErrorSourceIter<'a> {
    current: Option<Link<'a>>,
}

impl<'a> ErrorSourceIter<'a> {
    /// The element that the next step hands out, if any.
    pub closed spec fn current(self) -> Option<Link<'a>> {
        self.current
    }

    /// The texts of the elements still to come, in order.
    pub open spec fn remaining(self) -> Seq<Seq<char>> {
        match self.current() {
            Some(link) => link.chain(),
            None => Seq::empty(),
        }
    }

    /// A walk that starts at `error` itself.
    pub fn new(error: &'a Error) -> (r: Self)
        ensures
            r.current() == Some(Link::Failure(error)),
            r.remaining() == error.chain(),
    {
        ErrorSourceIter { current: Some(Link::Failure(error)) }
    }

    /// Hands out the current element and moves on to its cause.
    pub fn next(&mut self) -> (r: Option<Link<'a>>)
        ensures
            r == old(self).current(),
            final(self).current() == match r {
                Some(link) => link.next_link(),
                None => None,
            },
            r is None <==> old(self).remaining().len() == 0,
            r matches Some(link) ==> link.text() == old(self).remaining()[0],
            old(self).remaining().len() > 0 ==> final(self).remaining() == old(
                self,
            ).remaining().drop_first(),
            r is None ==> final(self).remaining().len() == 0,
    {
        proof {
            if let Some(link) = self.current {
                link.lemma_chain_unfolds();
            }
        }
        let current = self.current;
        self.current = match current {
            Some(link) => link.source(),
            None => None,
        };
        current
    }
}

impl Error {
    /// The texts of the whole chain, from this failure's message down to its
    /// root cause.
    pub fn chain_messages(&self) -> (r: Vec<String>)
        ensures
            r@.map_values(|s: String| s@) == self.chain(),
    {
        let mut it = ErrorSourceIter::new(self);
        let mut out: Vec<String> = Vec::new();
        loop
            invariant
                out@.map_values(|s: String| s@) + it.remaining() == self.chain(),
            ensures
                out@.map_values(|s: String| s@) == self.chain(),
            decreases it.remaining().len(),
        {
            let ghost before = it.remaining();
            let ghost done = out@.map_values(|s: String| s@);
            match it.next() {
                Some(link) => {
                    let text = link.message();
                    out.push(text);
                    assert(out@.map_values(|s: String| s@) == done.push(text@));
                    assert(done.push(text@) + it.remaining() =~= done + before);
                },
                None => {
                    assert(done + before =~= done);
                    break ;
                },
            }
        }
        out
    }
}

/// A walk from a failure first hands out the failure itself; the texts it
/// hands out are the failure's message and then, where the failure wraps a
/// cause, that cause's whole chain, with nothing left out.
pub proof fn lemma_walk_from_failure(error: &Error, walk: ErrorSourceIter)
    requires
        walk.current() == Some(Link::Failure(error)),
    ensures
        walk.remaining() == error.chain(),
        walk.remaining().len() > 0,
        walk.remaining()[0] == error.message_text(),
        match error.cause() {
            Some(c) => walk.remaining() == seq![error.message_text()] + c.chain(),
            None => walk.remaining() == seq![error.message_text()],
        },
{
    Link::Failure(error).lemma_chain_unfolds();
    if error.cause() is None {
        assert(error.chain() =~= seq![error.message_text()]);
    }
}

/// Two walks from the same failure hand out the same texts in the same order.
pub proof fn lemma_walk_repeatable(error: &Error, first: ErrorSourceIter, second: ErrorSourceIter)
    requires
        first.current() == Some(Link::Failure(error)),
        second.current() == Some(Link::Failure(error)),
    ensures
        first.remaining() == second.remaining(),
        first.remaining() == error.chain(),
{
}

} // verus!
