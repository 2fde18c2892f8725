//! A tagged value passed between the parser, the commands, and the
//! generator.
//!
//! The original type-erased payloads of a command are only ever numbers
//! (bound arguments) or points (emitted geometry), so the payload is a
//! closed union and every cast states which variant it expects.

use vstd::prelude::*;

use crate::gen::VecLineData;

verus! {

/// A plain value: a fixed-point number or a point.
#[derive(Clone, Copy, Debug, PartialEq, Eq, Structural)]
pub enum AnyData {
    Num(i64),
    Pos(VecLineData),
}

impl AnyData {
    /// Whether this value holds a number.
    pub open spec fn is_num(&self) -> bool {
        matches!(*self, AnyData::Num(_))
    }

    /// The number held, when `is_num`.
    pub open spec fn num(&self) -> i64
        recommends
            self.is_num(),
    {
        match *self {
            AnyData::Num(n) => n,
            AnyData::Pos(_) => 0,
        }
    }

    /// Box a number.
    pub fn new(data: i64) -> (r: AnyData)
        ensures
            r == AnyData::Num(data),
    {
        AnyData::Num(data)
    }

    /// Unbox the number held.
    pub fn cast(self) -> (r: i64)
        requires
            self.is_num(),
        ensures
            r == self.num(),
    {
        match self {
            AnyData::Num(n) => n,
            AnyData::Pos(_) => 0,
        }
    }

    /// Read the number held.
    pub fn cast_ref(&self) -> (r: &i64)
        requires
            self.is_num(),
        ensures
            *r == self.num(),
    {
        match self {
            AnyData::Num(n) => n,
            AnyData::Pos(_) => &0,
        }
    }

    /// Box every number of a vector.
    pub fn convert_vec(data: Vec<i64>) -> (r: Vec<AnyData>)
        ensures
            r@.len() == data@.len(),
            forall|i: int| 0 <= i < data@.len() ==> r@[i] == AnyData::Num(data@[i]),
    {
        let mut out: Vec<AnyData> = Vec::new();
        let mut i: usize = 0;
        while i < data.len()
            invariant
                i <= data.len(),
                out@.len() == i,
                forall|j: int| 0 <= j < i ==> out@[j] == AnyData::Num(data@[j]),
            decreases data.len() - i,
        {
            out.push(AnyData::Num(data[i]));
            i = i + 1;
        }
        out
    }

    /// A copy holding the same value.
    pub fn clone(&self) -> (r: AnyData)
        ensures
            r == *self,
    {
        match self {
            AnyData::Num(n) => AnyData::Num(*n),
            AnyData::Pos(p) => AnyData::Pos(*p),
        }
    }

    /// Whether two values of the same variant hold the same content.
    pub fn equal(&self, another: &AnyData) -> (r: bool)
        requires
            self.is_num() == another.is_num(),
        ensures
            r == (*self == *another),
    {
        match (self, another) {
            (AnyData::Num(a), AnyData::Num(b)) => *a == *b,
            (AnyData::Pos(a), AnyData::Pos(b)) => a.x == b.x && a.y == b.y,
            _ => false,
        }
    }

    /// Order two numbers.
    pub fn compare(&self, another: &AnyData) -> (r: core::cmp::Ordering)
        requires
            self.is_num(),
            another.is_num(),
        ensures
            r == core::cmp::Ordering::Greater <==> self.num() > another.num(),
            r == core::cmp::Ordering::Less <==> self.num() < another.num(),
            r == core::cmp::Ordering::Equal <==> self.num() == another.num(),
    {
        let lhs = *self.cast_ref();
        let rhs = *another.cast_ref();
        if lhs > rhs {
            core::cmp::Ordering::Greater
        } else if lhs < rhs {
            core::cmp::Ordering::Less
        } else {
            core::cmp::Ordering::Equal
        }
    }
}

} // verus!
