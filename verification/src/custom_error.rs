//! Error values built from scratch: a bare message wrapper, and an error that
//! optionally chains a cause, so a caller can read the whole story of a
//! failure instead of only its last symptom.
use vstd::prelude::*;

verus! {

/// The text placed between a message and the description of its cause.
pub open spec fn separator() -> Seq<char> {
    ": "@
}

/// The single line that a list of messages (outermost first) describes:
/// the messages in order, joined by `separator()`.
pub open spec fn joined(msgs: Seq<Seq<char>>) -> Seq<char>
    recommends
        msgs.len() >= 1,
    decreases msgs.len(),
{
    if msgs.len() <= 1 {
        if msgs.len() == 0 {
            Seq::empty()
        } else {
            msgs[0]
        }
    } else {
        msgs[0] + separator() + joined(msgs.drop_first())
    }
}

/// Anything can serve as an error, but a bare number tells a reader nothing.
pub fn dumb_error_type() -> (r: Result<(), u64>)
    ensures
        r == Result::<(), u64>::Err(1u64),
{
    Err(1)
}

/// An error that is nothing more than its message.
pub struct ErrorMessage(pub String);

impl ErrorMessage {
    /// The human-readable description: the message verbatim.
    pub fn describe(&self) -> (r: String)
        ensures
            r@ == self.0@,
    {
        self.0.clone()
    }
}

/// An error holding a message and, optionally, the error it wraps.
/// Both fields are fixed at construction: the value is immutable, and the
/// chain of causes is finite because every link exists before its wrapper.
pub struct BetterError {
    /// The description of this failure, possibly context for `source`.
    message: String,
    /// The wrapped underlying error, absent for a root cause.
    source: Option<Box<BetterError>>,
}

impl BetterError {
    /// The messages of this error and of every error below it, outermost
    /// first. Always holds at least one entry: this error's own message.
    pub closed spec fn chain(&self) -> Seq<Seq<char>>
        decreases self,
    {
        match self.source {
            None => seq![self.message@],
            Some(s) => seq![self.message@] + s.chain(),
        }
    }

    /// The wrapped cause, as `cause` returns it.
    pub closed spec fn spec_cause(&self) -> Option<BetterError> {
        match self.source {
            None => None,
            Some(s) => Some(*s),
        }
    }

    /// Construction always succeeds, whatever the message and the cause.
    pub fn new(message: String, source: Option<BetterError>) -> (r: BetterError)
        ensures
            r.chain() == match source {
                None => seq![message@],
                Some(s) => seq![message@] + s.chain(),
            },
            r.spec_cause() == source,
    {
        match source {
            None => BetterError { message, source: None },
            Some(s) => BetterError { message, source: Some(Box::new(s)) },
        }
    }

    /// This error's own message, the outermost entry of its chain.
    pub fn message(&self) -> (r: &String)
        ensures
            r@ == self.chain()[0],
    {
        &self.message
    }

    /// The wrapped cause, for walking the chain link by link. Absent exactly
    /// when this error is a root: its chain holds only its own message.
    pub fn cause(&self) -> (r: Option<&BetterError>)
        ensures
            match r {
                None => self.spec_cause() is None && self.chain().len() == 1,
                Some(c) => self.spec_cause() == Some(*c) && c.chain() == self.chain().drop_first()
                    && self.chain().len() == c.chain().len() + 1,
            },
    {
        proof {
            if self.source is Some {
                assert((seq![self.message@] + self.source->0.chain()).drop_first()
                    =~= self.source->0.chain());
            }
        }
        match &self.source {
            None => None,
            Some(s) => Some(&**s),
        }
    }

    /// One line for the whole chain: this error's message, then, for each
    /// wrapped error in turn, the separator and that error's message.
    pub fn describe(&self) -> (r: String)
        ensures
            r@ == joined(self.chain()),
        decreases *self,
    {
        match &self.source {
            None => self.message.clone(),
            Some(s) => {
                let rest = s.describe();
                let mut r = self.message.clone();
                r.append(": ");
                r.append(rest.as_str());
                proof {
                    assert(self.chain().drop_first() =~= s.chain());
                }
                r
            },
        }
    }
}

/// An error with no cause describes as its message alone.
pub proof fn lemma_describe_sole_message(m: Seq<char>)
    ensures
        joined(seq![m]) == m,
{
}

/// An error with exactly one cause describes as its own message, the
/// separator, and the cause's message.
pub proof fn lemma_describe_one_cause(m1: Seq<char>, m2: Seq<char>)
    ensures
        joined(seq![m1, m2]) == m1 + separator() + m2,
{
    assert(seq![m1, m2].drop_first() =~= seq![m2]);
    assert(joined(seq![m2]) == m2);
    assert(joined(seq![m1, m2]) == m1 + separator() + joined(seq![m2]));
}

/// What remains of an error after following `cause` a given number of times.
pub open spec fn walk(e: BetterError, k: nat) -> Option<BetterError>
    decreases k,
{
    if k == 0 {
        Some(e)
    } else {
        match walk(e, (k - 1) as nat) {
            None => None,
            Some(c) => c.spec_cause(),
        }
    }
}

/// Chain depth is preserved: from an error whose chain holds `n` messages,
/// every walk of fewer than `n` steps reaches a link (whose chain is the
/// corresponding suffix), and every longer walk finds nothing.
pub proof fn lemma_walk_depth(e: BetterError, k: nat)
    ensures
        k < e.chain().len() ==> (walk(e, k) matches Some(c) && c.chain() == e.chain().skip(
            k as int,
        )),
        k >= e.chain().len() ==> walk(e, k) is None,
    decreases k,
{
    lemma_chain_nonempty(e);
    if k == 0 {
        assert(e.chain().skip(0) =~= e.chain());
    } else {
        lemma_walk_depth(e, (k - 1) as nat);
        if k < e.chain().len() {
            let c = walk(e, (k - 1) as nat)->0;
            lemma_cause_drops_first(c);
            assert(c.chain().drop_first() =~= e.chain().skip(k as int));
        } else if k - 1 < e.chain().len() {
            let c = walk(e, (k - 1) as nat)->0;
            lemma_cause_drops_first(c);
        }
    }
}

/// A chain always holds at least the error's own message.
pub proof fn lemma_chain_nonempty(e: BetterError)
    ensures
        e.chain().len() >= 1,
{
}

/// Following `cause` once drops exactly the outermost message.
proof fn lemma_cause_drops_first(e: BetterError)
    ensures
        e.spec_cause() is None ==> e.chain().len() == 1,
        e.spec_cause() matches Some(c) ==> e.chain().len() == c.chain().len() + 1
            && c.chain() == e.chain().drop_first(),
{
    match e.source {
        None => {},
        Some(s) => {
            assert((seq![e.message@] + s.chain()).drop_first() =~= s.chain());
        },
    }
}

/// Describing is deterministic: any two descriptions of the same error, as
/// `describe` pins them down, are the same text.
pub proof fn lemma_describe_deterministic(e: &BetterError, r1: Seq<char>, r2: Seq<char>)
    requires
        r1 == joined(e.chain()),
        r2 == joined(e.chain()),
    ensures
        r1 == r2,
{
}

} // verus!
