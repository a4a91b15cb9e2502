//! Shapes: one, two or three axis extents, their element count and the work
//! size that a backend is given for them.

use vstd::prelude::*;

verus! {

/// The global work size of a kernel invocation, axis by axis.
#[derive(Clone, Copy, Debug, PartialEq, Eq, Structural)]
pub enum WorkSize {
    One(usize),
    Two(usize, usize),
    Three(usize, usize, usize),
}

impl WorkSize {
    /// The extents in axis order.
    pub open spec fn extents(self) -> Seq<nat> {
        match self {
            WorkSize::One(x) => seq![x as nat],
            WorkSize::Two(x, y) => seq![x as nat, y as nat],
            WorkSize::Three(x, y, z) => seq![x as nat, y as nat, z as nat],
        }
    }
}

/// Product of all extents; 1 for no axis at all.
pub open spec fn product(extents: Seq<nat>) -> nat
    decreases extents.len(),
{
    if extents.len() == 0 {
        1
    } else {
        extents.first() * product(extents.drop_first())
    }
}

/// The element count of a shape where the machine's word holds it.
pub open spec fn checked_product(extents: Seq<nat>) -> Option<usize> {
    if product(extents) <= usize::MAX {
        Some(product(extents) as usize)
    } else {
        None
    }
}

/// Number of elements that the backend is asked to allocate for a shape: its
/// element count, and one element for an empty shape, since backends reject
/// an allocation of length zero.
pub open spec fn allocation_len(extents: Seq<nat>) -> nat {
    if product(extents) == 0 {
        1
    } else {
        product(extents)
    }
}

/// The product of a single extent is that extent.
pub proof fn lemma_product_one(x: nat)
    ensures
        product(seq![x]) == x,
{
    let s = seq![x];
    assert(s.drop_first() =~= Seq::<nat>::empty());
    assert(product(s.drop_first()) == 1);
    assert(x * 1 == x) by (nonlinear_arith);
}

/// The product of two extents.
pub proof fn lemma_product_two(x: nat, y: nat)
    ensures
        product(seq![x, y]) == x * y,
{
    let s = seq![x, y];
    assert(s.drop_first() =~= seq![y]);
    lemma_product_one(y);
}

/// The product of three extents.
pub proof fn lemma_product_three(x: nat, y: nat, z: nat)
    ensures
        product(seq![x, y, z]) == x * y * z,
{
    let s = seq![x, y, z];
    assert(s.drop_first() =~= seq![y, z]);
    lemma_product_two(y, z);
    assert(x * (y * z) == x * y * z) by (nonlinear_arith);
}

/// A shape has no element exactly where one of its extents is zero.
pub proof fn lemma_product_zero(extents: Seq<nat>)
    ensures
        product(extents) == 0 <==> exists|i: int| 0 <= i < extents.len() && extents[i] == 0,
    decreases extents.len(),
{
    if extents.len() > 0 {
        let first = extents.first();
        let rest = extents.drop_first();
        lemma_product_zero(rest);
        if product(extents) == 0 {
            assert(first == 0 || product(rest) == 0) by (nonlinear_arith)
                requires
                    first * product(rest) == 0,
            ;
            if first == 0 {
                assert(extents[0] == 0);
            } else {
                let j = choose|j: int| 0 <= j < rest.len() && rest[j] == 0;
                assert(extents[j + 1] == 0);
            }
        }
        if exists|i: int| 0 <= i < extents.len() && extents[i] == 0 {
            let i = choose|i: int| 0 <= i < extents.len() && extents[i] == 0;
            if i == 0 {
                assert(first * product(rest) == 0) by (nonlinear_arith)
                    requires
                        first == 0,
                ;
            } else {
                assert(rest[i - 1] == 0);
                assert(first * product(rest) == 0) by (nonlinear_arith)
                    requires
                        product(rest) == 0,
                ;
            }
        }
    }
}

/// Three extents of at most 2^20 each have an element count of at most 2^60,
/// which a word of 64 bits holds.
pub proof fn lemma_product_three_bounded(x: nat, y: nat, z: nat)
    requires
        x <= 0x10_0000,
        y <= 0x10_0000,
        z <= 0x10_0000,
    ensures
        product(seq![x, y, z]) <= 0x1000_0000_0000_0000,
        usize::BITS == 64 ==> product(seq![x, y, z]) <= usize::MAX,
{
    lemma_product_three(x, y, z);
    assert(x * y <= 0x100_0000_0000) by (nonlinear_arith)
        requires
            x <= 0x10_0000,
            y <= 0x10_0000,
    ;
    assert(x * y * z <= 0x1000_0000_0000_0000) by (nonlinear_arith)
        requires
            x * y <= 0x100_0000_0000,
            z <= 0x10_0000,
    ;
}

/// Whatever the shape, the backend is asked for at least one element: for
/// one where the shape is empty, else for as many as the shape has.
pub proof fn lemma_allocation_floor(extents: Seq<nat>)
    ensures
        allocation_len(extents) >= 1,
        product(extents) == 0 ==> allocation_len(extents) == 1,
        product(extents) > 0 ==> allocation_len(extents) == product(extents),
{
}

/// A work size is lossless: two of them with the same extents in the same
/// order are the same work size.
pub proof fn lemma_work_size_by_extents(left: WorkSize, right: WorkSize)
    requires
        left.extents() == right.extents(),
    ensures
        left == right,
{
    let l = left.extents();
    let r = right.extents();
    assert(l.len() == r.len());
    match (left, right) {
        (WorkSize::One(a), WorkSize::One(x)) => {
            assert(l[0] == r[0]);
        },
        (WorkSize::Two(a, b), WorkSize::Two(x, y)) => {
            assert(l[0] == r[0]);
            assert(l[1] == r[1]);
        },
        (WorkSize::Three(a, b, c), WorkSize::Three(x, y, z)) => {
            assert(l[0] == r[0]);
            assert(l[1] == r[1]);
            assert(l[2] == r[2]);
        },
        _ => {},
    }
}

/// A shape of one, two or three axes.
pub trait Dimensions: Send + Sync + 'static {
    /// The extents in axis order.
    spec fn extents(&self) -> Seq<nat>;

    /// The element count: the product of the extents.
    fn multiply(&self) -> (count: usize)
        requires
            product(self.extents()) <= usize::MAX,
        ensures
            count == product(self.extents()),
    ;

    /// The element count where it fits the machine's word, `None` where it
    /// does not.
    fn checked_multiply(&self) -> (count: Option<usize>)
        ensures
            count == checked_product(self.extents()),
    ;

    /// The work size of one work item per element: the same extents in the
    /// same order.
    fn global_work_size(&self) -> (size: WorkSize)
        ensures
            size.extents() == self.extents(),
    ;
}

impl Dimensions for usize {
    open spec fn extents(&self) -> Seq<nat> {
        seq![*self as nat]
    }

    fn multiply(&self) -> (count: usize) {
        proof {
            lemma_product_one(*self as nat);
        }
        *self
    }

    fn checked_multiply(&self) -> (count: Option<usize>) {
        proof {
            lemma_product_one(*self as nat);
        }
        Some(*self)
    }

    fn global_work_size(&self) -> (size: WorkSize)
        ensures
            size == WorkSize::One(*self),
    {
        WorkSize::One(*self)
    }
}

impl Dimensions for (usize, usize) {
    open spec fn extents(&self) -> Seq<nat> {
        seq![self.0 as nat, self.1 as nat]
    }

    fn multiply(&self) -> (count: usize) {
        proof {
            lemma_product_two(self.0 as nat, self.1 as nat);
        }
        self.0 * self.1
    }

    fn checked_multiply(&self) -> (count: Option<usize>) {
        proof {
            lemma_product_two(self.0 as nat, self.1 as nat);
        }
        self.0.checked_mul(self.1)
    }

    fn global_work_size(&self) -> (size: WorkSize)
        ensures
            size == WorkSize::Two(self.0, self.1),
    {
        WorkSize::Two(self.0, self.1)
    }
}

impl Dimensions for (usize, usize, usize) {
    open spec fn extents(&self) -> Seq<nat> {
        seq![self.0 as nat, self.1 as nat, self.2 as nat]
    }

    fn multiply(&self) -> (count: usize) {
        let x: usize = self.0;
        let y: usize = self.1;
        let z: usize = self.2;
        proof {
            lemma_product_three(x as nat, y as nat, z as nat);
        }
        if z == 0 {
            assert(x * y * 0 == 0) by (nonlinear_arith);
            0
        } else {
            assert(x * y <= x * y * z) by (nonlinear_arith)
                requires
                    z >= 1,
            ;
            x * y * z
        }
    }

    fn checked_multiply(&self) -> (count: Option<usize>) {
        let x: usize = self.0;
        let y: usize = self.1;
        let z: usize = self.2;
        proof {
            lemma_product_three(x as nat, y as nat, z as nat);
        }
        if z == 0 {
            assert(x * y * 0 == 0) by (nonlinear_arith);
            Some(0)
        } else {
            match x.checked_mul(y) {
                Some(xy) => xy.checked_mul(z),
                None => {
                    assert(x * y <= x * y * z) by (nonlinear_arith)
                        requires
                            z >= 1,
                    ;
                    None
                },
            }
        }
    }

    fn global_work_size(&self) -> (size: WorkSize)
        ensures
            size == WorkSize::Three(self.0, self.1, self.2),
    {
        WorkSize::Three(self.0, self.1, self.2)
    }
}

} // verus!
