use smallvec::SmallVec;
use vstd::prelude::*;

verus! {

/// Inline-first storage for argument tokens, kept opaque to proofs; its
/// contents are [`arg_tokens`].
#[verifier::external_body]
#[derive(Debug)]
pub struct TokenStore {
    inner: SmallVec<[Vec<u8>; 10]>,
}

/// The tokens held by an argument store, in order.
pub uninterp spec fn arg_tokens(v: TokenStore) -> Seq<Seq<u8>>;

/// Relies on `SmallVec::new`: the new vector is empty.
#[verifier::external_body]
fn tokens_new() -> (r: TokenStore)
    ensures
        arg_tokens(r) == Seq::<Seq<u8>>::empty(),
{
    TokenStore { inner: SmallVec::new() }
}

/// Relies on `SmallVec::push`: the item is appended at the end.
#[verifier::external_body]
fn tokens_push(v: &mut TokenStore, token: Vec<u8>)
    ensures
        arg_tokens(*final(v)) == arg_tokens(*old(v)).push(token@),
{
    v.inner.push(token)
}

/// Relies on `SmallVec::len`: the number of items held.
#[verifier::external_body]
fn tokens_len(v: &TokenStore) -> (r: usize)
    ensures
        r == arg_tokens(*v).len(),
{
    v.inner.len()
}

/// Relies on `SmallVec::as_slice`: the items in order.
#[verifier::external_body]
fn tokens_slice(v: &TokenStore) -> (r: &[Vec<u8>])
    ensures
        r@.len() == arg_tokens(*v).len(),
        forall|i: int| 0 <= i < r@.len() ==> (#[trigger] r@[i])@ == arg_tokens(*v)[i],
{
    v.inner.as_slice()
}

/// An owned copy of a byte slice.
pub fn copy_bytes(buf: &[u8]) -> (r: Vec<u8>)
    ensures
        r@ == buf@,
{
    let mut r: Vec<u8> = Vec::new();
    let mut i: usize = 0;
    while i < buf.len()
        invariant
            i <= buf@.len(),
            r@ == buf@.subrange(0, i as int),
        decreases buf@.len() - i,
    {
        r.push(buf[i]);
        i += 1;
        assert(r@ =~= buf@.subrange(0, i as int));
    }
    assert(r@ =~= buf@);
    r
}

/// Ordered collection of the binary-safe argument tokens of a command.
#[derive(Debug)]
pub struct CommandArgs {
    args: TokenStore,
}

impl View for CommandArgs {
    type V = Seq<Seq<u8>>;

    closed spec fn view(&self) -> Seq<Seq<u8>> {
        arg_tokens(self.args)
    }
}

impl CommandArgs {
    /// An empty collection.
    pub fn new() -> (r: Self)
        ensures
            r@ == Seq::<Seq<u8>>::empty(),
    {
        CommandArgs { args: tokens_new() }
    }

    /// Appends one raw token.
    pub fn write_arg(&mut self, buf: &[u8])
        ensures
            final(self)@ == old(self)@.push(buf@),
    {
        tokens_push(&mut self.args, copy_bytes(buf));
    }

    /// Number of tokens.
    pub fn len(&self) -> (r: usize)
        ensures
            r == self@.len(),
    {
        tokens_len(&self.args)
    }

    /// Whether no token is held.
    pub fn is_empty(&self) -> (r: bool)
        ensures
            r == (self@.len() == 0),
    {
        self.len() == 0
    }

    /// The token at position `i`.
    pub fn get(&self, i: usize) -> (r: &[u8])
        requires
            i < self@.len(),
        ensures
            r@ == self@[i as int],
    {
        let s = tokens_slice(&self.args);
        s[i].as_slice()
    }

    /// Appends the tokens of `args` and hands the collection back for chaining.
    pub fn arg<A: ToArgs>(&mut self, args: A) -> (r: &mut Self)
        ensures
            r@ == old(self)@ + args.spec_args(),
            final(self)@ == final(r)@,
    {
        args.write_args(self);
        self
    }

    /// Appends the tokens of `*args` and hands the collection back for chaining.
    pub fn arg_ref<A: ToArgs>(&mut self, args: &A) -> (r: &mut Self)
        ensures
            r@ == old(self)@ + args.spec_args(),
            final(self)@ == final(r)@,
    {
        args.write_args(self);
        self
    }

    /// Appends the tokens of `args` when `condition` holds; otherwise leaves
    /// the collection as it was.
    pub fn arg_if<A: ToArgs>(&mut self, condition: bool, args: A) -> (r: &mut Self)
        ensures
            r@ == (if condition { old(self)@ + args.spec_args() } else { old(self)@ }),
            final(self)@ == final(r)@,
    {
        if condition {
            self.arg(args)
        } else {
            self
        }
    }

    /// Moves all tokens out into a new collection, leaving this one empty.
    pub fn build(&mut self) -> (r: Self)
        ensures
            r@ == old(self)@,
            final(self)@ == Seq::<Seq<u8>>::empty(),
    {
        let mut args = CommandArgs::new();
        std::mem::swap(&mut args.args, &mut self.args);
        args
    }

    /// All tokens, in order, as owned byte vectors.
    pub fn to_vec(&self) -> (r: Vec<Vec<u8>>)
        ensures
            r@.len() == self@.len(),
            forall|i: int| 0 <= i < r@.len() ==> (#[trigger] r@[i])@ == self@[i],
    {
        let s = tokens_slice(&self.args);
        let mut r: Vec<Vec<u8>> = Vec::new();
        let mut i: usize = 0;
        while i < s.len()
            invariant
                i <= s@.len(),
                s@.len() == self@.len(),
                forall|j: int| 0 <= j < s@.len() ==> (#[trigger] s@[j])@ == self@[j],
                r@.len() == i,
                forall|j: int| 0 <= j < i ==> (#[trigger] r@[j])@ == self@[j],
            decreases s@.len() - i,
        {
            r.push(copy_bytes(s[i].as_slice()));
            i += 1;
        }
        r
    }

    /// A cursor over the tokens, front to back.
    pub fn iter(&self) -> (r: CommandArgsIterator<'_>)
        ensures
            r.args() == self,
            r.pos() == 0,
    {
        CommandArgsIterator { args: self, pos: 0 }
    }
}

impl Default for CommandArgs {
    fn default() -> (r: Self)
        ensures
            r@ == Seq::<Seq<u8>>::empty(),
    {
        CommandArgs::new()
    }
}

/// Cursor over the tokens of a [`CommandArgs`].
pub struct CommandArgsIterator<'a> {
    args: &'a CommandArgs,
    pos: usize,
}

impl<'a> CommandArgsIterator<'a> {
    /// The collection walked.
    pub closed spec fn args(&self) -> &'a CommandArgs {
        self.args
    }

    /// Number of tokens already handed out.
    pub closed spec fn pos(&self) -> nat {
        self.pos as nat
    }

    /// The next token, if any is left.
    pub fn next(&mut self) -> (r: Option<&'a [u8]>)
        requires
            old(self).pos() <= old(self).args()@.len(),
        ensures
            final(self).args() == old(self).args(),
            final(self).pos() <= final(self).args()@.len(),
            old(self).pos() < old(self).args()@.len() ==> r.is_some() && r.unwrap()@
                == old(self).args()@[old(self).pos() as int] && final(self).pos() == old(self).pos()
                + 1,
            old(self).pos() == old(self).args()@.len() ==> r.is_none() && final(self).pos()
                == old(self).pos(),
    {
        if self.pos < self.args.len() {
            let t = self.args.get(self.pos);
            self.pos = self.pos + 1;
            Some(t)
        } else {
            None
        }
    }
}

/// A value that appends itself to a command's arguments as one or more tokens.
pub trait ToArgs {
    /// The tokens that the value appends, in order.
    spec fn spec_args(&self) -> Seq<Seq<u8>>;

    /// Appends the value's tokens.
    fn write_args(&self, args: &mut CommandArgs)
        ensures
            final(args)@ == old(args)@ + self.spec_args(),
    ;
}

} // verus!
