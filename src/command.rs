use crate::command_args::{copy_bytes, CommandArgs, ToArgs};
use vstd::prelude::*;
use vstd::utf8::encode_utf8;

verus! {

/// One request: a command name and its argument tokens, in wire order.
#[derive(Debug)]
pub struct Command {
    name: Vec<u8>,
    args: CommandArgs,
}

impl View for Command {
    /// The name token and the argument tokens.
    type V = (Seq<u8>, Seq<Seq<u8>>);

    closed spec fn view(&self) -> (Seq<u8>, Seq<Seq<u8>>) {
        (self.name@, self.args@)
    }
}

/// The tokens sent on the wire for a command: its name, then its arguments.
pub open spec fn wire_tokens(c: (Seq<u8>, Seq<Seq<u8>>)) -> Seq<Seq<u8>> {
    seq![c.0] + c.1
}

/// A command named `name`, with no argument yet.
pub fn cmd(name: &str) -> (r: Command)
    ensures
        r@.0 == encode_utf8(name@),
        r@.1 == Seq::<Seq<u8>>::empty(),
{
    Command { name: copy_bytes(name.as_bytes()), args: CommandArgs::new() }
}

impl Command {
    /// The command with the tokens of `args` appended.
    pub fn arg<A: ToArgs>(self, args: A) -> (r: Command)
        ensures
            r@.0 == self@.0,
            r@.1 == self@.1 + args.spec_args(),
    {
        let mut c = self;
        args.write_args(&mut c.args);
        c
    }

    /// The command with the tokens of `args` appended when `condition`
    /// holds, and unchanged otherwise.
    pub fn arg_if<A: ToArgs>(self, condition: bool, args: A) -> (r: Command)
        ensures
            r@ == (if condition {
                (self@.0, self@.1 + args.spec_args())
            } else {
                self@
            }),
    {
        if condition {
            self.arg(args)
        } else {
            self
        }
    }

    /// The name token.
    pub fn name(&self) -> (r: &[u8])
        ensures
            r@ == self@.0,
    {
        self.name.as_slice()
    }

    /// The argument tokens.
    pub fn args(&self) -> (r: &CommandArgs)
        ensures
            r@ == self@.1,
    {
        &self.args
    }

    /// All wire tokens: the name, then the arguments.
    pub fn to_wire(&self) -> (r: Vec<Vec<u8>>)
        ensures
            r@.len() == wire_tokens(self@).len(),
            forall|i: int| 0 <= i < r@.len() ==> (#[trigger] r@[i])@ == wire_tokens(self@)[i],
    {
        let mut r: Vec<Vec<u8>> = Vec::new();
        r.push(copy_bytes(self.name.as_slice()));
        let n = self.args.len();
        let mut i: usize = 0;
        while i < n
            invariant
                n == self.args@.len(),
                i <= n,
                r@.len() == i + 1,
                forall|j: int| 0 <= j < r@.len() ==> (#[trigger] r@[j])@ == wire_tokens(self@)[j],
            decreases n - i,
        {
            r.push(copy_bytes(self.args.get(i)));
            i += 1;
        }
        r
    }
}

/// Appending `a` and then `b` to a command gives the same command as
/// appending the tokens of `a` followed by those of `b` in one step: chained
/// modifiers land in the order they were applied, and nothing reorders them.
pub proof fn lemma_chaining_keeps_order(base: Seq<Seq<u8>>, a: Seq<Seq<u8>>, b: Seq<Seq<u8>>)
    ensures
        (base + a) + b == base + (a + b),
{
    assert((base + a) + b =~= base + (a + b));
}

} // verus!
