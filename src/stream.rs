use crate::manager::ModelManager;
use crate::text::concat;
use crossbeam_channel::Sender;
use vstd::prelude::*;

verus! {

#[verifier::external_type_specification]
#[verifier::external_body]
#[verifier::reject_recursive_types(T)]
pub struct ExSender<T>(Sender<T>);

/// The text that opens the token which reports a failed generation.
pub open spec fn error_prefix() -> Seq<char> {
    "[ENGINE ERROR]: "@
}

/// The token that reports a failed generation with `message`.
pub open spec fn error_token_of(message: Seq<char>) -> Seq<char> {
    error_prefix() + message
}

/// Relies on crossbeam_channel::Sender::send: hands `token` to the channel,
/// and returns whether the receiving side was still there to take it.
#[verifier::external_body]
fn send_token(tx: &Sender<String>, token: String) -> (delivered: bool) {
    tx.send(token).is_ok()
}

/// The sentinel token that reports a failed generation with `message`.
pub fn error_token(message: &str) -> (r: String)
    ensures
        r@ == error_token_of(message@),
{
    proof {
        reveal_strlit("[ENGINE ERROR]: ");
    }
    concat("[ENGINE ERROR]: ", message)
}

/// Whether `token` is the sentinel of a failed generation.
pub open spec fn is_error_token(token: Seq<char>) -> bool {
    token.len() >= error_prefix().len() && token.subrange(0, error_prefix().len() as int)
        == error_prefix()
}

/// The producing side of one token stream: it forwards the tokens a model
/// emits, stops at the first one the consumer no longer takes, and can end
/// the stream with the sentinel of a failure.
pub struct Producer {
    attempted: usize,
    accepted: usize,
    cancelled: bool,
    sent: Ghost<Seq<Seq<char>>>,
    failure: Ghost<Option<Seq<char>>>,
}

/// Everything handed to the stream, in order: the tokens, then the failure
/// sentinel if there was one.
pub open spec fn handed(sent: Seq<Seq<char>>, failure: Option<Seq<char>>) -> Seq<Seq<char>> {
    match failure {
        Some(f) => sent.push(f),
        None => sent,
    }
}

impl Producer {
    /// The tokens handed to the channel, in order, the refused one included.
    pub closed spec fn sent(&self) -> Seq<Seq<char>> {
        self.sent@
    }

    /// How many of the tokens sent the consumer was still there to take.
    pub closed spec fn taken(&self) -> nat {
        self.accepted as nat
    }

    /// The last send was refused: the consumer has gone away.
    pub closed spec fn gone(&self) -> bool {
        self.cancelled
    }

    /// The sentinel that reported a failed generation, once handed over.
    pub closed spec fn failure(&self) -> Option<Seq<char>> {
        self.failure@
    }

    /// The count of sends agrees with the log of what was sent.
    pub closed spec fn counted(&self) -> bool {
        self.attempted as int == self.sent@.len()
    }

    /// Every token sent was taken, but the refused one that ended the stream.
    pub open spec fn wf(&self) -> bool {
        &&& self.counted()
        &&& self.sent().len() == self.taken() + if self.gone() {
            1int
        } else {
            0int
        }
    }

    /// Whether another token may still be offered.
    pub open spec fn open(&self) -> bool {
        !self.gone() && self.failure() is None
    }

    /// A producer that has handed nothing over.
    pub fn new() -> (r: Self)
        ensures
            r.wf(),
            r.sent() == Seq::<Seq<char>>::empty(),
            r.taken() == 0,
            !r.gone(),
            r.failure() is None,
    {
        Producer {
            attempted: 0,
            accepted: 0,
            cancelled: false,
            sent: Ghost(Seq::empty()),
            failure: Ghost(None),
        }
    }

    /// Tokens handed to the channel, the refused one included.
    pub fn attempted(&self) -> (r: usize)
        requires
            self.wf(),
        ensures
            r == self.sent().len(),
    {
        self.attempted
    }

    /// Tokens the consumer was still there to take.
    pub fn accepted(&self) -> (r: usize)
        ensures
            r == self.taken(),
    {
        self.accepted
    }

    /// Whether the consumer went away before the stream ended.
    pub fn cancelled(&self) -> (r: bool)
        ensures
            r == self.gone(),
    {
        self.cancelled
    }

    /// Takes note that `token` was handed to the channel and whether the
    /// consumer took it; the stream goes on exactly when it did.
    pub fn record(&mut self, token: &String, delivered: bool) -> (go_on: bool)
        requires
            old(self).wf(),
            old(self).open(),
            old(self).sent().len() < usize::MAX,
        ensures
            final(self).wf(),
            go_on == delivered,
            final(self).sent() == old(self).sent().push(token@),
            final(self).taken() == old(self).taken() + if delivered {
                1int
            } else {
                0int
            },
            final(self).gone() == !delivered,
            final(self).failure() == old(self).failure(),
    {
        self.attempted = self.attempted + 1;
        self.sent = Ghost(self.sent@.push(token@));
        if delivered {
            self.accepted = self.accepted + 1;
        } else {
            self.cancelled = true;
        }
        delivered
    }

    /// The continuation a model calls with each token it produces: forwards
    /// the token, and asks for more only while the consumer still listens.
    pub fn on_token(&mut self, tx: &Sender<String>, token: String) -> (go_on: bool)
        requires
            old(self).wf(),
            old(self).open(),
            old(self).sent().len() < usize::MAX,
        ensures
            final(self).wf(),
            final(self).sent() == old(self).sent().push(token@),
            go_on == !final(self).gone(),
            final(self).taken() == old(self).taken() + if go_on {
                1int
            } else {
                0int
            },
            final(self).failure() == old(self).failure(),
    {
        let copy = token.clone();
        let delivered = send_token(tx, token);
        self.record(&copy, delivered)
    }

    /// Ends the stream with the sentinel that reports a failure with `message`.
    pub fn report_failure(&mut self, tx: &Sender<String>, message: &str)
        requires
            old(self).wf(),
            old(self).failure() is None,
        ensures
            final(self).wf(),
            final(self).sent() == old(self).sent(),
            final(self).taken() == old(self).taken(),
            final(self).gone() == old(self).gone(),
            final(self).failure() == Some(error_token_of(message@)),
    {
        let token = error_token(message);
        self.failure = Ghost(Some(token@));
        let _ = send_token(tx, token);
    }
}

/// Forwards `tokens` in order and stops at the first one the consumer no
/// longer takes.
pub fn stream_tokens(tokens: &Vec<String>, tx: &Sender<String>) -> (r: Producer)
    ensures
        r.wf(),
        r.failure() is None,
        r.sent().len() <= tokens@.len(),
        r.sent() == tokens@.take(r.sent().len() as int).map_values(|s: String| s@),
        !r.gone() ==> r.sent().len() == tokens@.len(),
{
    let mut p = Producer::new();
    let mut i: usize = 0;
    while i < tokens.len()
        invariant
            i <= tokens@.len(),
            p.wf(),
            p.open(),
            p.sent().len() == i,
            p.sent() == tokens@.take(i as int).map_values(|s: String| s@),
        decreases tokens@.len() - i,
    {
        let token = tokens[i].clone();
        let go_on = p.on_token(tx, token);
        assert(tokens@.take(i + 1) =~= tokens@.take(i as int).push(tokens@[i as int]));
        assert(p.sent() =~= tokens@.take(i + 1).map_values(|s: String| s@));
        if !go_on {
            return p;
        }
        i = i + 1;
    }
    assert(tokens@.take(i as int) =~= tokens@);
    p
}

/// A producer never runs more than one token past the consumer: every token
/// sent was taken but at most the one whose refusal ended the stream, and a
/// stream that was not cancelled had all its tokens taken.
pub proof fn at_most_one_past_consumer(p: Producer)
    requires
        p.wf(),
    ensures
        p.sent().len() <= p.taken() + 1,
        !p.gone() ==> p.sent().len() == p.taken(),
{
}

/// A producer given no tokens hands nothing to the stream, so its consumer
/// sees the channel close with no token on it.
pub proof fn empty_stream_hands_nothing(tokens: Seq<String>, p: Producer)
    requires
        tokens.len() == 0,
        p.wf(),
        p.failure() is None,
        p.sent().len() <= tokens.len(),
    ensures
        handed(p.sent(), p.failure()) == Seq::<Seq<char>>::empty(),
        p.taken() == 0,
        !p.gone(),
{
    assert(p.sent() =~= Seq::<Seq<char>>::empty());
}

/// A stream that ends in failure hands over its tokens in order and then the
/// sentinel, exactly once.
pub proof fn failure_follows_tokens(before: Producer, after: Producer, message: Seq<char>)
    requires
        before.failure() is None,
        after.sent() == before.sent(),
        after.failure() == Some(error_token_of(message)),
    ensures
        handed(after.sent(), after.failure()) == before.sent().push(error_token_of(message)),
        handed(after.sent(), after.failure()).len() == before.sent().len() + 1,
{
}

/// How a request for generation was met.
#[derive(Debug, Clone, Copy, PartialEq, Eq, Structural)]
pub enum Generation {
    /// No model was loaded: the stream was closed with nothing on it.
    NotLoaded,
    /// The live engine ran the generation into the stream.
    Started,
}

/// The worker side of a generation: runs `generate` on the live engine with
/// the stream's sending half, or, with no model loaded, drops that half at
/// once so that the consumer sees an empty stream and returns.
pub fn run_generation<E, F: FnOnce(&mut E, Sender<String>)>(
    manager: &mut ModelManager<E>,
    tx: Sender<String>,
    generate: F,
) -> (r: Generation)
    requires
        forall|e: &mut E, t: Sender<String>| generate.requires((e, t)),
    ensures
        r == (if old(manager).engine() is Some {
            Generation::Started
        } else {
            Generation::NotLoaded
        }),
        final(manager).kind() == old(manager).kind(),
        old(manager).engine() is Some ==> exists|e: &mut E|
            {
                &&& old(manager).engine() == Some(*e)
                &&& final(manager).engine() == Some(*final(e))
                &&& call_ensures(generate, (e, tx), ())
            },
        old(manager).engine() is None ==> final(manager).engine() is None,
{
    match manager.engine_mut() {
        Some(engine) => {
            generate(engine, tx);
            Generation::Started
        },
        None => Generation::NotLoaded,
    }
}

/// What a stream that failed with `message` ends with: the failure, told
/// apart from ordinary text by its prefix.
pub proof fn error_token_is_recognisable(message: Seq<char>)
    ensures
        is_error_token(error_token_of(message)),
        error_token_of(message).subrange(error_prefix().len() as int, error_token_of(message).len() as int)
            == message,
{
    assert(error_token_of(message).subrange(0, error_prefix().len() as int) =~= error_prefix());
    assert(error_token_of(message).subrange(error_prefix().len() as int, error_token_of(message).len() as int)
        =~= message);
}

} // verus!
