use crate::command_args::{CommandArgs, ToArgs};
use crate::decimal::{decimal, i64_to_decimal, signed_decimal, u64_to_decimal};
use vstd::prelude::*;
use vstd::utf8::encode_utf8;

verus! {

impl ToArgs for u64 {
    open spec fn spec_args(&self) -> Seq<Seq<u8>> {
        seq![decimal(*self as nat)]
    }

    fn write_args(&self, args: &mut CommandArgs) {
        let t = u64_to_decimal(*self);
        args.write_arg(t.as_slice());
        assert(final(args)@ =~= old(args)@ + self.spec_args());
    }
}

impl ToArgs for usize {
    open spec fn spec_args(&self) -> Seq<Seq<u8>> {
        seq![decimal(*self as nat)]
    }

    fn write_args(&self, args: &mut CommandArgs) {
        let t = u64_to_decimal(*self as u64);
        args.write_arg(t.as_slice());
        assert(final(args)@ =~= old(args)@ + self.spec_args());
    }
}

impl ToArgs for i64 {
    open spec fn spec_args(&self) -> Seq<Seq<u8>> {
        seq![signed_decimal(*self as int)]
    }

    fn write_args(&self, args: &mut CommandArgs) {
        let t = i64_to_decimal(*self);
        args.write_arg(t.as_slice());
        assert(final(args)@ =~= old(args)@ + self.spec_args());
    }
}

impl<'a> ToArgs for &'a str {
    open spec fn spec_args(&self) -> Seq<Seq<u8>> {
        seq![encode_utf8((*self)@)]
    }

    fn write_args(&self, args: &mut CommandArgs) {
        args.write_arg(self.as_bytes());
        assert(final(args)@ =~= old(args)@ + self.spec_args());
    }
}

impl ToArgs for String {
    open spec fn spec_args(&self) -> Seq<Seq<u8>> {
        seq![encode_utf8(self@)]
    }

    fn write_args(&self, args: &mut CommandArgs) {
        args.write_arg(self.as_str().as_bytes());
        assert(final(args)@ =~= old(args)@ + self.spec_args());
    }
}

/// Raw bytes: one binary-safe token, never read as text.
impl ToArgs for Vec<u8> {
    open spec fn spec_args(&self) -> Seq<Seq<u8>> {
        seq![self@]
    }

    fn write_args(&self, args: &mut CommandArgs) {
        args.write_arg(self.as_slice());
        assert(final(args)@ =~= old(args)@ + self.spec_args());
    }
}

/// The tokens of each item in turn.
pub open spec fn concat_args<T: ToArgs>(items: Seq<T>) -> Seq<Seq<u8>>
    decreases items.len(),
{
    if items.len() == 0 {
        Seq::empty()
    } else {
        concat_args(items.drop_last()) + items.last().spec_args()
    }
}

/// An argument that takes one value or an ordered collection of values, such
/// as the keys of a removal.
pub enum SingleArgOrCollection<T> {
    Single(T),
    Collection(Vec<T>),
}

impl<T: ToArgs> ToArgs for SingleArgOrCollection<T> {
    open spec fn spec_args(&self) -> Seq<Seq<u8>> {
        match self {
            SingleArgOrCollection::Single(v) => v.spec_args(),
            SingleArgOrCollection::Collection(c) => concat_args(c@),
        }
    }

    fn write_args(&self, args: &mut CommandArgs) {
        match self {
            SingleArgOrCollection::Single(v) => v.write_args(args),
            SingleArgOrCollection::Collection(c) => {
                let mut i: usize = 0;
                while i < c.len()
                    invariant
                        i <= c@.len(),
                        args@ == old(args)@ + concat_args(c@.take(i as int)),
                    decreases c@.len() - i,
                {
                    c[i].write_args(args);
                    assert(c@.take(i as int + 1).drop_last() =~= c@.take(i as int));
                    i += 1;
                    assert(args@ =~= old(args)@ + concat_args(c@.take(i as int)));
                }
                assert(c@.take(i as int) =~= c@);
            },
        }
    }
}

/// One value, and a collection holding just that value, append the same
/// tokens.
pub proof fn lemma_single_matches_collection<T: ToArgs>(v: T, c: Vec<T>)
    requires
        c@ == seq![v],
    ensures
        SingleArgOrCollection::Single(v).spec_args() == SingleArgOrCollection::Collection(
            c,
        ).spec_args(),
{
    assert(c@.drop_last() =~= Seq::<T>::empty());
    assert(concat_args(c@.drop_last()) =~= Seq::<Seq<u8>>::empty());
    assert(concat_args(c@) =~= v.spec_args());
}

} // verus!
