//! The argument marshaller: lowers strongly-typed or raw values into the
//! tagged wire format consumed by the virtual machine's script-argument
//! channel. Lowering is total, each primitive produces exactly one wire
//! value whose tag matches its width, a byte vector passes through
//! verbatim, and a list lowers to the concatenation of its elements'
//! lowerings, in input order.

use vstd::prelude::*;

verus! {

/// A 256-bit unsigned value, as four 64-bit limbs, least significant
/// first.
#[derive(Copy, Clone, Debug, Eq, PartialEq, Structural)]
pub struct U256 {
    /// Bits 0 to 63.
    pub w0: u64,
    /// Bits 64 to 127.
    pub w1: u64,
    /// Bits 128 to 191.
    pub w2: u64,
    /// Bits 192 to 255.
    pub w3: u64,
}

/// A tagged wire value for the virtual machine's script-argument channel.
#[derive(Clone, Debug, Eq, PartialEq)]
pub enum TransactionArgument {
    /// An 8-bit unsigned integer.
    U8(u8),
    /// A 16-bit unsigned integer.
    U16(u16),
    /// A 32-bit unsigned integer.
    U32(u32),
    /// A 64-bit unsigned integer.
    U64(u64),
    /// A 128-bit unsigned integer.
    U128(u128),
    /// A 256-bit unsigned integer.
    U256(U256),
    /// A boolean.
    Bool(bool),
    /// A byte vector, passed through verbatim.
    U8Vector(Vec<u8>),
}

/// The mathematical model of one wire value.
#[verifier::ext_equal]
pub ghost enum WireView {
    U8(u8),
    U16(u16),
    U32(u32),
    U64(u64),
    U128(u128),
    U256(U256),
    Bool(bool),
    Bytes(Seq<u8>),
}

impl View for TransactionArgument {
    type V = WireView;

    open spec fn view(&self) -> WireView {
        match self {
            TransactionArgument::U8(x) => WireView::U8(*x),
            TransactionArgument::U16(x) => WireView::U16(*x),
            TransactionArgument::U32(x) => WireView::U32(*x),
            TransactionArgument::U64(x) => WireView::U64(*x),
            TransactionArgument::U128(x) => WireView::U128(*x),
            TransactionArgument::U256(x) => WireView::U256(*x),
            TransactionArgument::Bool(x) => WireView::Bool(*x),
            TransactionArgument::U8Vector(v) => WireView::Bytes(v@),
        }
    }
}

impl DeepView for TransactionArgument {
    type V = WireView;

    open spec fn deep_view(&self) -> WireView {
        self.view()
    }
}

/// A convertible input value for a script run: one case per supported
/// primitive kind, a byte vector, and a list that lowers to its elements'
/// lowerings in order.
#[derive(Debug, Eq, PartialEq)]
pub enum MoveArg {
    /// An 8-bit unsigned integer.
    U8(u8),
    /// A 16-bit unsigned integer.
    U16(u16),
    /// A 32-bit unsigned integer.
    U32(u32),
    /// A 64-bit unsigned integer.
    U64(u64),
    /// A 128-bit unsigned integer.
    U128(u128),
    /// A 256-bit unsigned integer.
    U256(U256),
    /// A boolean.
    Bool(bool),
    /// A byte vector.
    Bytes(Vec<u8>),
    /// An ordered list of convertible values.
    List(Vec<MoveArg>),
}

/// The wire values one input value lowers to: exactly one tagged value per
/// primitive, the bytes verbatim, and for a list the concatenation of its
/// elements' lowerings in order.
pub open spec fn lowered_arg(a: MoveArg) -> Seq<WireView>
    decreases a,
{
    match a {
        MoveArg::U8(x) => seq![WireView::U8(x)],
        MoveArg::U16(x) => seq![WireView::U16(x)],
        MoveArg::U32(x) => seq![WireView::U32(x)],
        MoveArg::U64(x) => seq![WireView::U64(x)],
        MoveArg::U128(x) => seq![WireView::U128(x)],
        MoveArg::U256(x) => seq![WireView::U256(x)],
        MoveArg::Bool(x) => seq![WireView::Bool(x)],
        MoveArg::Bytes(v) => seq![WireView::Bytes(v@)],
        MoveArg::List(items) => lowered_list(items@),
    }
}

/// The wire values a sequence of input values lowers to, in order.
pub open spec fn lowered_list(s: Seq<MoveArg>) -> Seq<WireView>
    decreases s,
{
    if s.len() == 0 {
        Seq::empty()
    } else {
        lowered_arg(s[0]) + lowered_list(s.skip(1))
    }
}

/// Lowering distributes over concatenation: the lowering of two input
/// lists joined end to end is the two lowerings joined end to end. With
/// [`lowered_list`]'s definition this makes output order mirror input
/// order for any ordered input list.
pub proof fn lemma_lower_concat(xs: Seq<MoveArg>, ys: Seq<MoveArg>)
    ensures
        lowered_list(xs + ys) == lowered_list(xs) + lowered_list(ys),
    decreases xs.len(),
{
    if xs.len() == 0 {
        assert(xs + ys =~= ys);
        assert(lowered_list(xs) + lowered_list(ys) =~= lowered_list(ys));
    } else {
        assert((xs + ys)[0] == xs[0]);
        assert((xs + ys).skip(1) =~= xs.skip(1) + ys);
        lemma_lower_concat(xs.skip(1), ys);
        assert(lowered_arg(xs[0]) + (lowered_list(xs.skip(1)) + lowered_list(ys))
            =~= (lowered_arg(xs[0]) + lowered_list(xs.skip(1))) + lowered_list(ys));
    }
}

/// A singleton list lowers to its element's lowering.
pub proof fn lemma_lower_single(a: MoveArg)
    ensures
        lowered_list(seq![a]) == lowered_arg(a),
{
    let s = seq![a];
    assert(s.skip(1) =~= Seq::<MoveArg>::empty());
    assert(lowered_arg(a) + lowered_list(s.skip(1)) =~= lowered_arg(a));
}

/// Copies a byte vector element by element.
fn copy_bytes(b: &Vec<u8>) -> (r: Vec<u8>)
    ensures
        r@ == b@,
{
    let mut r: Vec<u8> = Vec::new();
    let mut i: usize = 0;
    while i < b.len()
        invariant
            i <= b.len(),
            r@ == b@.take(i as int),
        decreases b.len() - i,
    {
        r.push(b[i]);
        proof {
            assert(r@ =~= b@.take(i + 1));
        }
        i = i + 1;
    }
    proof {
        assert(b@.take(b@.len() as int) =~= b@);
    }
    r
}

impl MoveArg {
    /// Lowers this value to its wire values: never fails, and never
    /// reorders, truncates or splits an element.
    pub fn lower(&self) -> (r: Vec<TransactionArgument>)
        ensures
            r.deep_view() == lowered_arg(*self),
        decreases *self,
    {
        let mut r: Vec<TransactionArgument> = Vec::new();
        match self {
            MoveArg::U8(x) => {
                r.push(TransactionArgument::U8(*x));
            },
            MoveArg::U16(x) => {
                r.push(TransactionArgument::U16(*x));
            },
            MoveArg::U32(x) => {
                r.push(TransactionArgument::U32(*x));
            },
            MoveArg::U64(x) => {
                r.push(TransactionArgument::U64(*x));
            },
            MoveArg::U128(x) => {
                r.push(TransactionArgument::U128(*x));
            },
            MoveArg::U256(x) => {
                r.push(TransactionArgument::U256(*x));
            },
            MoveArg::Bool(x) => {
                r.push(TransactionArgument::Bool(*x));
            },
            MoveArg::Bytes(v) => {
                r.push(TransactionArgument::U8Vector(copy_bytes(v)));
            },
            MoveArg::List(items) => {
                let mut i: usize = 0;
                while i < items.len()
                    invariant
                        *self == MoveArg::List(*items),
                        i <= items.len(),
                        r.deep_view() == lowered_list(items@.take(i as int)),
                    decreases items.len() - i,
                {
                    proof {
                        assert(decreases_to!(*self => self->List_0));
                        assert(self->List_0 == *items);
                        assert(decreases_to!(*items => items@));
                        assert(decreases_to!(items@ => items@[i as int]));
                        assert(decreases_to!(*self => items@[i as int]));
                    }
                    let mut sub = items[i].lower();
                    let ghost rprevvec = r@;
                    let ghost rprev = r.deep_view();
                    let ghost subvec = sub@;
                    let ghost subv = sub.deep_view();
                    r.append(&mut sub);
                    proof {
                        lemma_append_deep_view(r, rprevvec, rprev, subvec, subv);
                        assert(items@.take(i + 1) =~= items@.take(i as int) + seq![
                            items@[i as int],
                        ]);
                        lemma_lower_concat(items@.take(i as int), seq![items@[i as int]]);
                        lemma_lower_single(items@[i as int]);
                    }
                    i = i + 1;
                }
                proof {
                    assert(items@.take(items@.len() as int) =~= items@);
                }
            },
        }
        proof {
            assert(r.deep_view() =~= lowered_arg(*self));
        }
        r
    }
}

/// Appending to a wire vector concatenates the deep views.
proof fn lemma_append_deep_view(
    r: Vec<TransactionArgument>,
    prev: Seq<TransactionArgument>,
    prevdeep: Seq<WireView>,
    subv: Seq<TransactionArgument>,
    subdeep: Seq<WireView>,
)
    requires
        r@ == prev + subv,
        prevdeep.len() == prev.len(),
        forall|i: int| 0 <= i < prev.len() ==> prevdeep[i] == prev[i]@,
        subdeep.len() == subv.len(),
        forall|i: int| 0 <= i < subv.len() ==> subdeep[i] == subv[i]@,
    ensures
        r.deep_view() =~= prevdeep + subdeep,
{
    assert forall|i: int| 0 <= i < r.deep_view().len() implies r.deep_view()[i] == (prevdeep
        + subdeep)[i] by {
        if i < prev.len() {
            assert(r@[i] == prev[i]);
        } else {
            assert(r@[i] == subv[i - prev.len()]);
        }
    }
}

/// A value that knows how to lower itself to one or more wire values.
pub trait ToTransactionArgument {
    /// The wire values this value lowers to.
    spec fn lowered(&self) -> Seq<WireView>;

    /// Lowers this value to its wire values; total and side-effect-free.
    fn to_transaction_argument(&self) -> (r: Vec<TransactionArgument>)
        ensures
            r.deep_view() == self.lowered(),
    ;
}

impl ToTransactionArgument for u8 {
    open spec fn lowered(&self) -> Seq<WireView> {
        seq![WireView::U8(*self)]
    }

    fn to_transaction_argument(&self) -> (r: Vec<TransactionArgument>) {
        let mut r: Vec<TransactionArgument> = Vec::new();
        r.push(TransactionArgument::U8(*self));
        proof {
            assert(r.deep_view() =~= self.lowered());
        }
        r
    }
}

impl ToTransactionArgument for u16 {
    open spec fn lowered(&self) -> Seq<WireView> {
        seq![WireView::U16(*self)]
    }

    fn to_transaction_argument(&self) -> (r: Vec<TransactionArgument>) {
        let mut r: Vec<TransactionArgument> = Vec::new();
        r.push(TransactionArgument::U16(*self));
        proof {
            assert(r.deep_view() =~= self.lowered());
        }
        r
    }
}

impl ToTransactionArgument for u32 {
    open spec fn lowered(&self) -> Seq<WireView> {
        seq![WireView::U32(*self)]
    }

    fn to_transaction_argument(&self) -> (r: Vec<TransactionArgument>) {
        let mut r: Vec<TransactionArgument> = Vec::new();
        r.push(TransactionArgument::U32(*self));
        proof {
            assert(r.deep_view() =~= self.lowered());
        }
        r
    }
}

impl ToTransactionArgument for u64 {
    open spec fn lowered(&self) -> Seq<WireView> {
        seq![WireView::U64(*self)]
    }

    fn to_transaction_argument(&self) -> (r: Vec<TransactionArgument>) {
        let mut r: Vec<TransactionArgument> = Vec::new();
        r.push(TransactionArgument::U64(*self));
        proof {
            assert(r.deep_view() =~= self.lowered());
        }
        r
    }
}

impl ToTransactionArgument for u128 {
    open spec fn lowered(&self) -> Seq<WireView> {
        seq![WireView::U128(*self)]
    }

    fn to_transaction_argument(&self) -> (r: Vec<TransactionArgument>) {
        let mut r: Vec<TransactionArgument> = Vec::new();
        r.push(TransactionArgument::U128(*self));
        proof {
            assert(r.deep_view() =~= self.lowered());
        }
        r
    }
}

impl ToTransactionArgument for U256 {
    open spec fn lowered(&self) -> Seq<WireView> {
        seq![WireView::U256(*self)]
    }

    fn to_transaction_argument(&self) -> (r: Vec<TransactionArgument>) {
        let mut r: Vec<TransactionArgument> = Vec::new();
        r.push(TransactionArgument::U256(*self));
        proof {
            assert(r.deep_view() =~= self.lowered());
        }
        r
    }
}

impl ToTransactionArgument for bool {
    open spec fn lowered(&self) -> Seq<WireView> {
        seq![WireView::Bool(*self)]
    }

    fn to_transaction_argument(&self) -> (r: Vec<TransactionArgument>) {
        let mut r: Vec<TransactionArgument> = Vec::new();
        r.push(TransactionArgument::Bool(*self));
        proof {
            assert(r.deep_view() =~= self.lowered());
        }
        r
    }
}

impl ToTransactionArgument for Vec<u8> {
    open spec fn lowered(&self) -> Seq<WireView> {
        seq![WireView::Bytes(self@)]
    }

    fn to_transaction_argument(&self) -> (r: Vec<TransactionArgument>) {
        let mut r: Vec<TransactionArgument> = Vec::new();
        r.push(TransactionArgument::U8Vector(copy_bytes(self)));
        proof {
            assert(r.deep_view() =~= self.lowered());
        }
        r
    }
}

impl ToTransactionArgument for MoveArg {
    open spec fn lowered(&self) -> Seq<WireView> {
        lowered_arg(*self)
    }

    fn to_transaction_argument(&self) -> (r: Vec<TransactionArgument>) {
        self.lower()
    }
}

impl ToTransactionArgument for Vec<MoveArg> {
    open spec fn lowered(&self) -> Seq<WireView> {
        lowered_list(self@)
    }

    fn to_transaction_argument(&self) -> (r: Vec<TransactionArgument>) {
        let mut r: Vec<TransactionArgument> = Vec::new();
        let mut i: usize = 0;
        while i < self.len()
            invariant
                i <= self.len(),
                r.deep_view() == lowered_list(self@.take(i as int)),
            decreases self.len() - i,
        {
            let mut sub = self[i].lower();
            let ghost rprevvec = r@;
            let ghost rprev = r.deep_view();
            let ghost subvec = sub@;
            let ghost subv = sub.deep_view();
            r.append(&mut sub);
            proof {
                lemma_append_deep_view(r, rprevvec, rprev, subvec, subv);
                assert(self@.take(i + 1) =~= self@.take(i as int) + seq![self@[i as int]]);
                lemma_lower_concat(self@.take(i as int), seq![self@[i as int]]);
                lemma_lower_single(self@[i as int]);
            }
            i = i + 1;
        }
        proof {
            assert(self@.take(self@.len() as int) =~= self@);
        }
        r
    }
}

} // verus!
