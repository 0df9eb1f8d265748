//! Named combiners over signals: arithmetic, comparison, bitwise and
//! boolean combinations of two signals, each a signal of the combined
//! value. These are the named equivalents of operator sugar: `add(a, b)`
//! reads both sources and produces their sum, and so on.

use vstd::prelude::*;

use crate::signal::Signal;

verus! {

/// The arithmetic combination a combined integer signal computes.
#[derive(Debug, Clone, Copy, PartialEq, Eq, Structural)]
pub enum IntOp {
    /// Addition.
    Add,
    /// Subtraction.
    Sub,
    /// Multiplication.
    Mul,
    /// Division (of a non-negative value by a positive one).
    Div,
    /// Remainder (of a non-negative value by a positive one).
    Rem,
    /// The greater operand.
    Max,
    /// The smaller operand.
    Min,
}

/// Whether applying `op` to `a` and `b` is defined and free of overflow.
pub open spec fn int_op_ok(op: IntOp, a: i32, b: i32) -> bool {
    match op {
        IntOp::Add => i32::MIN <= a + b <= i32::MAX,
        IntOp::Sub => i32::MIN <= a - b <= i32::MAX,
        IntOp::Mul => i32::MIN <= a * b <= i32::MAX,
        IntOp::Div => 0 <= a && 0 < b,
        IntOp::Rem => 0 <= a && 0 < b,
        IntOp::Max => true,
        IntOp::Min => true,
    }
}

/// The value `op` applied to `a` and `b` produces.
pub open spec fn int_op_val(op: IntOp, a: i32, b: i32) -> int {
    match op {
        IntOp::Add => a + b,
        IntOp::Sub => a - b,
        IntOp::Mul => a * b,
        IntOp::Div => a as int / b as int,
        IntOp::Rem => a as int % b as int,
        IntOp::Max => if a >= b {
            a as int
        } else {
            b as int
        },
        IntOp::Min => if a <= b {
            a as int
        } else {
            b as int
        },
    }
}

/// Combines two integer signals with one arithmetic operation; reading it
/// reads both sources and combines the values.
pub struct IntCombine<A, B> where A: Signal<Output = i32>, B: Signal<Output = i32> {
    a: A,
    b: B,
    op: IntOp,
}

impl<A, B> IntCombine<A, B> where A: Signal<Output = i32>, B: Signal<Output = i32> {
    /// The first combined signal.
    pub closed spec fn first(&self) -> A {
        self.a
    }

    /// The second combined signal.
    pub closed spec fn second(&self) -> B {
        self.b
    }

    /// The operation applied.
    pub closed spec fn op(&self) -> IntOp {
        self.op
    }

    #[verifier::type_invariant]
    spec fn inv(self) -> bool {
        forall|va: i32, vb: i32|
            self.a.obs(va) && self.b.obs(vb) ==> #[trigger] int_op_ok(self.op, va, vb)
    }

    /// Combines `a` and `b` under `op`; the operation must be defined and
    /// overflow-free on every pair of values the sources can produce.
    pub fn new(a: A, b: B, op: IntOp) -> (r: Self)
        requires
            forall|va: i32, vb: i32| a.obs(va) && b.obs(vb) ==> #[trigger] int_op_ok(op, va, vb),
        ensures
            r.first() == a,
            r.second() == b,
            r.op() == op,
    {
        IntCombine { a, b, op }
    }
}

impl<A, B> Signal for IntCombine<A, B> where A: Signal<Output = i32>, B: Signal<Output = i32> {
    type Output = i32;

    open spec fn obs(&self, value: i32) -> bool {
        exists|va: i32, vb: i32|
            {
                &&& self.first().obs(va)
                &&& self.second().obs(vb)
                &&& #[trigger] int_op_ok(self.op(), va, vb)
                &&& value == int_op_val(self.op(), va, vb)
            }
    }

    fn get(&self) -> (r: i32) {
        proof {
            use_type_invariant(self);
        }
        let va = self.a.get();
        let vb = self.b.get();
        proof {
            assert(int_op_ok(self.op(), va, vb));
        }
        let r = match self.op {
            IntOp::Add => va + vb,
            IntOp::Sub => va - vb,
            IntOp::Mul => va * vb,
            IntOp::Div => va / vb,
            IntOp::Rem => va % vb,
            IntOp::Max => if va >= vb {
                va
            } else {
                vb
            },
            IntOp::Min => if va <= vb {
                va
            } else {
                vb
            },
        };
        proof {
            assert(self.first().obs(va) && self.second().obs(vb) && int_op_ok(self.op(), va, vb)
                && r == int_op_val(self.op(), va, vb));
        }
        r
    }
}

/// The sum of two integer signals.
pub fn add<A, B>(a: A, b: B) -> (r: IntCombine<A, B>)
    where
        A: Signal<Output = i32>,
        B: Signal<Output = i32>,
    requires
        forall|va: i32, vb: i32|
            a.obs(va) && b.obs(vb) ==> #[trigger] int_op_ok(IntOp::Add, va, vb),
    ensures
        r.first() == a,
        r.second() == b,
        r.op() == IntOp::Add,
{
    IntCombine::new(a, b, IntOp::Add)
}

/// The difference of two integer signals.
pub fn sub<A, B>(a: A, b: B) -> (r: IntCombine<A, B>)
    where
        A: Signal<Output = i32>,
        B: Signal<Output = i32>,
    requires
        forall|va: i32, vb: i32|
            a.obs(va) && b.obs(vb) ==> #[trigger] int_op_ok(IntOp::Sub, va, vb),
    ensures
        r.first() == a,
        r.second() == b,
        r.op() == IntOp::Sub,
{
    IntCombine::new(a, b, IntOp::Sub)
}

/// The product of two integer signals.
pub fn mul<A, B>(a: A, b: B) -> (r: IntCombine<A, B>)
    where
        A: Signal<Output = i32>,
        B: Signal<Output = i32>,
    requires
        forall|va: i32, vb: i32|
            a.obs(va) && b.obs(vb) ==> #[trigger] int_op_ok(IntOp::Mul, va, vb),
    ensures
        r.first() == a,
        r.second() == b,
        r.op() == IntOp::Mul,
{
    IntCombine::new(a, b, IntOp::Mul)
}

/// The quotient of two integer signals.
pub fn div<A, B>(a: A, b: B) -> (r: IntCombine<A, B>)
    where
        A: Signal<Output = i32>,
        B: Signal<Output = i32>,
    requires
        forall|va: i32, vb: i32|
            a.obs(va) && b.obs(vb) ==> #[trigger] int_op_ok(IntOp::Div, va, vb),
    ensures
        r.first() == a,
        r.second() == b,
        r.op() == IntOp::Div,
{
    IntCombine::new(a, b, IntOp::Div)
}

/// The remainder of two integer signals.
pub fn rem<A, B>(a: A, b: B) -> (r: IntCombine<A, B>)
    where
        A: Signal<Output = i32>,
        B: Signal<Output = i32>,
    requires
        forall|va: i32, vb: i32|
            a.obs(va) && b.obs(vb) ==> #[trigger] int_op_ok(IntOp::Rem, va, vb),
    ensures
        r.first() == a,
        r.second() == b,
        r.op() == IntOp::Rem,
{
    IntCombine::new(a, b, IntOp::Rem)
}

/// The greater of two integer signals.
pub fn max<A, B>(a: A, b: B) -> (r: IntCombine<A, B>)
    where
        A: Signal<Output = i32>,
        B: Signal<Output = i32>,
    ensures
        r.first() == a,
        r.second() == b,
        r.op() == IntOp::Max,
{
    IntCombine::new(a, b, IntOp::Max)
}

/// The smaller of two integer signals.
pub fn min<A, B>(a: A, b: B) -> (r: IntCombine<A, B>)
    where
        A: Signal<Output = i32>,
        B: Signal<Output = i32>,
    ensures
        r.first() == a,
        r.second() == b,
        r.op() == IntOp::Min,
{
    IntCombine::new(a, b, IntOp::Min)
}

/// The bitwise combination a combined bit-signal computes.
#[derive(Debug, Clone, Copy, PartialEq, Eq, Structural)]
pub enum BitOp {
    /// Bitwise conjunction.
    And,
    /// Bitwise disjunction.
    Or,
    /// Bitwise exclusive disjunction.
    Xor,
    /// Left shift (by fewer than 32 places).
    Shl,
    /// Right shift (by fewer than 32 places).
    Shr,
}

/// Whether applying `op` to `a` and `b` is defined.
pub open spec fn bit_op_ok(op: BitOp, a: u32, b: u32) -> bool {
    match op {
        BitOp::Shl => b < 32,
        BitOp::Shr => b < 32,
        _ => true,
    }
}

/// The value `op` applied to `a` and `b` produces.
pub open spec fn bit_op_val(op: BitOp, a: u32, b: u32) -> u32 {
    match op {
        BitOp::And => a & b,
        BitOp::Or => a | b,
        BitOp::Xor => a ^ b,
        BitOp::Shl => a << b,
        BitOp::Shr => a >> b,
    }
}

/// Combines two bit-pattern signals with one bitwise operation.
pub struct BitCombine<A, B> where A: Signal<Output = u32>, B: Signal<Output = u32> {
    a: A,
    b: B,
    op: BitOp,
}

impl<A, B> BitCombine<A, B> where A: Signal<Output = u32>, B: Signal<Output = u32> {
    /// The first combined signal.
    pub closed spec fn first(&self) -> A {
        self.a
    }

    /// The second combined signal.
    pub closed spec fn second(&self) -> B {
        self.b
    }

    /// The operation applied.
    pub closed spec fn op(&self) -> BitOp {
        self.op
    }

    #[verifier::type_invariant]
    spec fn inv(self) -> bool {
        forall|va: u32, vb: u32|
            self.a.obs(va) && self.b.obs(vb) ==> #[trigger] bit_op_ok(self.op, va, vb)
    }

    /// Combines `a` and `b` under `op`; a shift amount must stay below the
    /// word width for every value the second source can produce.
    pub fn new(a: A, b: B, op: BitOp) -> (r: Self)
        requires
            forall|va: u32, vb: u32| a.obs(va) && b.obs(vb) ==> #[trigger] bit_op_ok(op, va, vb),
        ensures
            r.first() == a,
            r.second() == b,
            r.op() == op,
    {
        BitCombine { a, b, op }
    }
}

impl<A, B> Signal for BitCombine<A, B> where A: Signal<Output = u32>, B: Signal<Output = u32> {
    type Output = u32;

    open spec fn obs(&self, value: u32) -> bool {
        exists|va: u32, vb: u32|
            {
                &&& self.first().obs(va)
                &&& self.second().obs(vb)
                &&& #[trigger] bit_op_ok(self.op(), va, vb)
                &&& value == bit_op_val(self.op(), va, vb)
            }
    }

    fn get(&self) -> (r: u32) {
        proof {
            use_type_invariant(self);
        }
        let va = self.a.get();
        let vb = self.b.get();
        proof {
            assert(bit_op_ok(self.op(), va, vb));
        }
        let r = match self.op {
            BitOp::And => va & vb,
            BitOp::Or => va | vb,
            BitOp::Xor => va ^ vb,
            BitOp::Shl => va << vb,
            BitOp::Shr => va >> vb,
        };
        proof {
            assert(self.first().obs(va) && self.second().obs(vb) && bit_op_ok(self.op(), va, vb)
                && r == bit_op_val(self.op(), va, vb));
        }
        r
    }
}

/// The bitwise conjunction of two signals.
pub fn bitand<A, B>(a: A, b: B) -> (r: BitCombine<A, B>)
    where
        A: Signal<Output = u32>,
        B: Signal<Output = u32>,
    ensures
        r.first() == a,
        r.second() == b,
        r.op() == BitOp::And,
{
    BitCombine::new(a, b, BitOp::And)
}

/// The bitwise disjunction of two signals.
pub fn bitor<A, B>(a: A, b: B) -> (r: BitCombine<A, B>)
    where
        A: Signal<Output = u32>,
        B: Signal<Output = u32>,
    ensures
        r.first() == a,
        r.second() == b,
        r.op() == BitOp::Or,
{
    BitCombine::new(a, b, BitOp::Or)
}

/// The bitwise exclusive disjunction of two signals.
pub fn bitxor<A, B>(a: A, b: B) -> (r: BitCombine<A, B>)
    where
        A: Signal<Output = u32>,
        B: Signal<Output = u32>,
    ensures
        r.first() == a,
        r.second() == b,
        r.op() == BitOp::Xor,
{
    BitCombine::new(a, b, BitOp::Xor)
}

/// The left shift of one signal by another.
pub fn shl<A, B>(a: A, b: B) -> (r: BitCombine<A, B>)
    where
        A: Signal<Output = u32>,
        B: Signal<Output = u32>,
    requires
        forall|vb: u32| b.obs(vb) ==> vb < 32,
    ensures
        r.first() == a,
        r.second() == b,
        r.op() == BitOp::Shl,
{
    BitCombine::new(a, b, BitOp::Shl)
}

/// The right shift of one signal by another.
pub fn shr<A, B>(a: A, b: B) -> (r: BitCombine<A, B>)
    where
        A: Signal<Output = u32>,
        B: Signal<Output = u32>,
    requires
        forall|vb: u32| b.obs(vb) ==> vb < 32,
    ensures
        r.first() == a,
        r.second() == b,
        r.op() == BitOp::Shr,
{
    BitCombine::new(a, b, BitOp::Shr)
}

/// The negation of an integer signal.
pub struct Negated<A> where A: Signal<Output = i32> {
    a: A,
}

impl<A> Negated<A> where A: Signal<Output = i32> {
    /// The negated signal.
    pub closed spec fn source(&self) -> A {
        self.a
    }

    #[verifier::type_invariant]
    spec fn inv(self) -> bool {
        forall|v: i32| #[trigger] self.a.obs(v) ==> v != i32::MIN
    }

    /// Negates `a`; the smallest integer, whose negation overflows, must be
    /// out of the source's reach.
    pub fn new(a: A) -> (r: Self)
        requires
            forall|v: i32| #[trigger] a.obs(v) ==> v != i32::MIN,
        ensures
            r.source() == a,
    {
        Negated { a }
    }
}

impl<A> Signal for Negated<A> where A: Signal<Output = i32> {
    type Output = i32;

    open spec fn obs(&self, value: i32) -> bool {
        exists|v: i32| #[trigger] self.source().obs(v) && v != i32::MIN && value == -v
    }

    fn get(&self) -> (r: i32) {
        proof {
            use_type_invariant(self);
        }
        let v = self.a.get();
        let r = -v;
        proof {
            assert(self.source().obs(v) && v != i32::MIN && r == -v);
        }
        r
    }
}

/// Negates an integer signal.
pub fn neg<A>(a: A) -> (r: Negated<A>)
    where
        A: Signal<Output = i32>,
    requires
        forall|v: i32| #[trigger] a.obs(v) ==> v != i32::MIN,
    ensures
        r.source() == a,
{
    Negated::new(a)
}

/// The logical complement of a boolean signal.
pub struct Complement<A> where A: Signal<Output = bool> {
    a: A,
}

impl<A> Complement<A> where A: Signal<Output = bool> {
    /// The complemented signal.
    pub closed spec fn source(&self) -> A {
        self.a
    }

    /// Complements `a`.
    pub fn new(a: A) -> (r: Self)
        ensures
            r.source() == a,
    {
        Complement { a }
    }
}

impl<A> Signal for Complement<A> where A: Signal<Output = bool> {
    type Output = bool;

    open spec fn obs(&self, value: bool) -> bool {
        self.source().obs(!value)
    }

    fn get(&self) -> (r: bool) {
        let v = self.a.get();
        !v
    }
}

/// Complements a boolean signal.
pub fn not<A>(a: A) -> (r: Complement<A>)
    where
        A: Signal<Output = bool>,
    ensures
        r.source() == a,
{
    Complement::new(a)
}

} // verus!
