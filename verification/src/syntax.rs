//! The command registry: every command name the language knows, and the
//! two-tier lookup the parser uses.
//!
//! A name is folded to uppercase and first looked up exactly among all
//! aliases.  On a miss, the Levenshtein edit distance to every alias is
//! computed; if the closest alias (the earliest in registry order on a
//! tie) is at distance less than three it is returned as a suggestion,
//! otherwise the lookup fails with no suggestion, encoded as an empty
//! suggestion string.

use vstd::prelude::*;

use crate::gen::VecOpsType;
use crate::interfaces::Command;
use crate::text::{chars_to_string, str_to_chars, to_upper, upper_of};

verus! {

/// The Levenshtein edit distance: the least number of single-character
/// insertions, deletions and substitutions turning `a` into `b`.
pub open spec fn spec_levenshtein(a: Seq<char>, b: Seq<char>) -> int
    decreases a.len() + b.len(),
{
    if a.len() == 0 {
        b.len() as int
    } else if b.len() == 0 {
        a.len() as int
    } else if a.last() == b.last() {
        spec_levenshtein(a.drop_last(), b.drop_last())
    } else {
        1 + spec_min3(
            spec_levenshtein(a.drop_last(), b),
            spec_levenshtein(a, b.drop_last()),
            spec_levenshtein(a.drop_last(), b.drop_last()),
        )
    }
}

pub open spec fn spec_min3(a: int, b: int, c: int) -> int {
    if a <= b && a <= c {
        a
    } else if b <= c {
        b
    } else {
        c
    }
}

/// Relies on levenshtein::levenshtein: the classic single-row dynamic
/// program computing the edit distance over characters.
#[verifier::external_body]
fn levenshtein_distance(a: &str, b: &str) -> (r: usize)
    ensures
        r == spec_levenshtein(a@, b@),
{
    levenshtein::levenshtein(a, b)
}

/// Every alias the registry knows, in registry order.
pub open spec fn spec_alias_list() -> Seq<Seq<char>> {
    seq![
        "MOVE"@,
        "LINE"@,
        "QUAD"@,
        "CUBI"@,
        "CUBIC"@,
        "END"@,
        "CLOSE"@,
        "PUSH_TRANS"@,
        "POP_TRANS"@,
        "PUSH_SCALE"@,
        "SCALE"@,
        "PUSH_ROTATE"@,
        "ROTATE"@,
        "PUSH_SKEW"@,
        "SKEW"@,
        "PUSH_TRANSLATE"@,
        "TRANSLATE"@,
        "PUSH_WORLD_TRANS"@,
        "POP_WORLD_TRANS"@,
        "PUSH_WORLD_SCALE"@,
        "WORLD_SCALE"@,
        "PUSH_WORLD_ROTATE"@,
        "WORLD_ROTATE"@,
        "PUSH_WORLD_SKEW"@,
        "WORLD_SKEW"@,
        "PUSH_WORLD_TRANSLATE"@,
        "WORLD_TRANSLATE"@,
    ]
}

/// The command kind each alias belongs to, parallel to the alias list.
pub open spec fn spec_alias_kinds() -> Seq<VecOpsType> {
    seq![
        VecOpsType::VecOpMove,
        VecOpsType::VecOpLine,
        VecOpsType::VecOpQuad,
        VecOpsType::VecOpCubi,
        VecOpsType::VecOpCubi,
        VecOpsType::VecOpEnd,
        VecOpsType::VecOpEnd,
        VecOpsType::VecOpPushTrans,
        VecOpsType::VecOpPopTrans,
        VecOpsType::VecOpPushScale,
        VecOpsType::VecOpPushScale,
        VecOpsType::VecOpPushRotate,
        VecOpsType::VecOpPushRotate,
        VecOpsType::VecOpPushSkew,
        VecOpsType::VecOpPushSkew,
        VecOpsType::VecOpPushTranslate,
        VecOpsType::VecOpPushTranslate,
        VecOpsType::VecOpPushWorldTrans,
        VecOpsType::VecOpPopWorldTrans,
        VecOpsType::VecOpPushWorldScale,
        VecOpsType::VecOpPushWorldScale,
        VecOpsType::VecOpPushWorldRotate,
        VecOpsType::VecOpPushWorldRotate,
        VecOpsType::VecOpPushWorldSkew,
        VecOpsType::VecOpPushWorldSkew,
        VecOpsType::VecOpPushWorldTranslate,
        VecOpsType::VecOpPushWorldTranslate,
    ]
}

/// The command kinds in registry order, one per descriptor.
pub open spec fn spec_kind_order() -> Seq<VecOpsType> {
    seq![
        VecOpsType::VecOpMove,
        VecOpsType::VecOpLine,
        VecOpsType::VecOpQuad,
        VecOpsType::VecOpCubi,
        VecOpsType::VecOpEnd,
        VecOpsType::VecOpPushTrans,
        VecOpsType::VecOpPopTrans,
        VecOpsType::VecOpPushScale,
        VecOpsType::VecOpPushRotate,
        VecOpsType::VecOpPushSkew,
        VecOpsType::VecOpPushTranslate,
        VecOpsType::VecOpPushWorldTrans,
        VecOpsType::VecOpPopWorldTrans,
        VecOpsType::VecOpPushWorldScale,
        VecOpsType::VecOpPushWorldRotate,
        VecOpsType::VecOpPushWorldSkew,
        VecOpsType::VecOpPushWorldTranslate,
    ]
}

/// The first alias index at or after `i` equal to `folded`, if any.
pub open spec fn spec_first_exact(folded: Seq<char>, i: int) -> Option<int>
    decreases spec_alias_list().len() - i,
{
    if i < 0 || i >= spec_alias_list().len() {
        None
    } else if spec_alias_list()[i] == folded {
        Some(i)
    } else {
        spec_first_exact(folded, i + 1)
    }
}

/// Scan the aliases from `i` on, keeping the first index of strictly
/// smallest distance seen so far.
pub open spec fn spec_best_from(folded: Seq<char>, i: int, bd: int, bj: int) -> (int, int)
    decreases spec_alias_list().len() - i,
{
    if i < 0 || i >= spec_alias_list().len() {
        (bd, bj)
    } else {
        let d = spec_levenshtein(folded, spec_alias_list()[i]);
        if d < bd {
            spec_best_from(folded, i + 1, d, i)
        } else {
            spec_best_from(folded, i + 1, bd, bj)
        }
    }
}

/// The smallest distance from `folded` to any alias, with the earliest
/// alias index achieving it.
pub open spec fn spec_best(folded: Seq<char>) -> (int, int) {
    spec_best_from(folded, 1, spec_levenshtein(folded, spec_alias_list()[0]), 0)
}

/// The registry's answer for an already-folded name: the kind of the
/// first exactly matching alias; else the closest alias as a suggestion
/// when its distance is below three; else no suggestion (empty string).
pub open spec fn spec_match_command(folded: Seq<char>) -> Result<VecOpsType, Seq<char>> {
    match spec_first_exact(folded, 0) {
        Option::Some(i) => Result::Ok(spec_alias_kinds()[i]),
        Option::None => {
            let bd = spec_best(folded).0;
            let bj = spec_best(folded).1;
            if bd < 3 {
                Result::Err(spec_alias_list()[bj])
            } else {
                Result::Err(Seq::empty())
            }
        },
    }
}

/// The drawing language's syntax: its registry and lookup.
pub struct CommonVecOpSyntax {}

fn chars_eq(a: &Vec<char>, b: &Vec<char>) -> (r: bool)
    ensures
        r == (a@ == b@),
{
    if a.len() != b.len() {
        return false;
    }
    let mut i: usize = 0;
    while i < a.len()
        invariant
            i <= a@.len(),
            a@.len() == b@.len(),
            forall|j: int| 0 <= j < i ==> a@[j] == b@[j],
        decreases a@.len() - i,
    {
        if a[i] != b[i] {
            return false;
        }
        i = i + 1;
    }
    proof {
        assert(a@ =~= b@);
    }
    true
}

impl CommonVecOpSyntax {
    pub fn name(&self) -> (r: &'static str)
        ensures
            r@ == "CommonVecOpSyntax"@,
    {
        "CommonVecOpSyntax"
    }

    /// Names are matched without regard to case.
    pub fn case_sensitive(&self) -> (r: bool)
        ensures
            r == false,
    {
        false
    }

    /// Every alias with its command kind, in registry order.
    pub fn aliases() -> (r: Vec<(VecOpsType, &'static str)>)
        ensures
            r@.len() == spec_alias_list().len(),
            forall|i: int|
                0 <= i < r@.len() ==> r@[i].0 == spec_alias_kinds()[i] && r@[i].1@
                    == spec_alias_list()[i],
    {
        let mut v: Vec<(VecOpsType, &'static str)> = Vec::new();
        v.push((VecOpsType::VecOpMove, "MOVE"));
        v.push((VecOpsType::VecOpLine, "LINE"));
        v.push((VecOpsType::VecOpQuad, "QUAD"));
        v.push((VecOpsType::VecOpCubi, "CUBI"));
        v.push((VecOpsType::VecOpCubi, "CUBIC"));
        v.push((VecOpsType::VecOpEnd, "END"));
        v.push((VecOpsType::VecOpEnd, "CLOSE"));
        v.push((VecOpsType::VecOpPushTrans, "PUSH_TRANS"));
        v.push((VecOpsType::VecOpPopTrans, "POP_TRANS"));
        v.push((VecOpsType::VecOpPushScale, "PUSH_SCALE"));
        v.push((VecOpsType::VecOpPushScale, "SCALE"));
        v.push((VecOpsType::VecOpPushRotate, "PUSH_ROTATE"));
        v.push((VecOpsType::VecOpPushRotate, "ROTATE"));
        v.push((VecOpsType::VecOpPushSkew, "PUSH_SKEW"));
        v.push((VecOpsType::VecOpPushSkew, "SKEW"));
        v.push((VecOpsType::VecOpPushTranslate, "PUSH_TRANSLATE"));
        v.push((VecOpsType::VecOpPushTranslate, "TRANSLATE"));
        v.push((VecOpsType::VecOpPushWorldTrans, "PUSH_WORLD_TRANS"));
        v.push((VecOpsType::VecOpPopWorldTrans, "POP_WORLD_TRANS"));
        v.push((VecOpsType::VecOpPushWorldScale, "PUSH_WORLD_SCALE"));
        v.push((VecOpsType::VecOpPushWorldScale, "WORLD_SCALE"));
        v.push((VecOpsType::VecOpPushWorldRotate, "PUSH_WORLD_ROTATE"));
        v.push((VecOpsType::VecOpPushWorldRotate, "WORLD_ROTATE"));
        v.push((VecOpsType::VecOpPushWorldSkew, "PUSH_WORLD_SKEW"));
        v.push((VecOpsType::VecOpPushWorldSkew, "WORLD_SKEW"));
        v.push((VecOpsType::VecOpPushWorldTranslate, "PUSH_WORLD_TRANSLATE"));
        v.push((VecOpsType::VecOpPushWorldTranslate, "WORLD_TRANSLATE"));
        v
    }

    /// The command kinds in registry order.
    pub fn formats(&self) -> (r: Vec<VecOpsType>)
        ensures
            r@ == spec_kind_order(),
    {
        let mut v: Vec<VecOpsType> = Vec::new();
        v.push(VecOpsType::VecOpMove);
        v.push(VecOpsType::VecOpLine);
        v.push(VecOpsType::VecOpQuad);
        v.push(VecOpsType::VecOpCubi);
        v.push(VecOpsType::VecOpEnd);
        v.push(VecOpsType::VecOpPushTrans);
        v.push(VecOpsType::VecOpPopTrans);
        v.push(VecOpsType::VecOpPushScale);
        v.push(VecOpsType::VecOpPushRotate);
        v.push(VecOpsType::VecOpPushSkew);
        v.push(VecOpsType::VecOpPushTranslate);
        v.push(VecOpsType::VecOpPushWorldTrans);
        v.push(VecOpsType::VecOpPopWorldTrans);
        v.push(VecOpsType::VecOpPushWorldScale);
        v.push(VecOpsType::VecOpPushWorldRotate);
        v.push(VecOpsType::VecOpPushWorldSkew);
        v.push(VecOpsType::VecOpPushWorldTranslate);
        proof {
            assert(v@ =~= spec_kind_order());
        }
        v
    }

    /// The keyword set handed to the syntax-highlighting consumer: every
    /// alias the registry knows.
    pub fn keywords(&self) -> (r: Vec<&'static str>)
        ensures
            r@.len() == spec_alias_list().len(),
            forall|i: int| 0 <= i < r@.len() ==> r@[i]@ == spec_alias_list()[i],
    {
        let al = Self::aliases();
        let mut v: Vec<&'static str> = Vec::new();
        let mut i: usize = 0;
        while i < al.len()
            invariant
                i <= al@.len(),
                v@.len() == i,
                al@.len() == spec_alias_list().len(),
                forall|j: int|
                    0 <= j < al@.len() ==> al@[j].0 == spec_alias_kinds()[j] && al@[j].1@
                        == spec_alias_list()[j],
                forall|j: int| 0 <= j < i ==> v@[j]@ == spec_alias_list()[j],
            decreases al@.len() - i,
        {
            v.push(al[i].1);
            i = i + 1;
        }
        v
    }

    /// Resolve a command name: an exact (case-folded) alias hit yields
    /// an unbound command of that kind; otherwise the failure carries
    /// the closest alias as a suggestion, or the empty string when no
    /// alias is within distance two.
    pub fn match_command(&self, cmd: &str) -> (r: Result<Command, String>)
        ensures
            match spec_match_command(upper_of(cmd@)) {
                Result::Ok(kind) => r is Ok && r.unwrap().dsc == kind && r.unwrap().argv@.len()
                    == 0,
                Result::Err(s) => r is Err && r.unwrap_err()@ == s,
            },
    {
        let ghost folded: Seq<char> = upper_of(cmd@);
        let upper = to_upper(cmd);
        let fch = str_to_chars(upper.as_str());
        let al = Self::aliases();
        let mut i: usize = 0;
        while i < al.len()
            invariant
                i <= al@.len(),
                folded == upper_of(cmd@),
                fch@ == folded,
                al@.len() == spec_alias_list().len(),
                forall|j: int|
                    0 <= j < al@.len() ==> al@[j].0 == spec_alias_kinds()[j] && al@[j].1@
                        == spec_alias_list()[j],
                spec_first_exact(folded, 0) == spec_first_exact(folded, i as int),
            decreases al@.len() - i,
        {
            let nch = str_to_chars(al[i].1);
            proof {
                assert(al@[i as int].1@ == spec_alias_list()[i as int]);
                assert(al@[i as int].0 == spec_alias_kinds()[i as int]);
            }
            if chars_eq(&fch, &nch) {
                proof {
                    assert(folded == spec_alias_list()[i as int]);
                    assert(spec_first_exact(folded, i as int) == Option::Some(i as int));
                    assert(spec_match_command(folded) == Result::<VecOpsType, Seq<char>>::Ok(
                        spec_alias_kinds()[i as int],
                    ));
                }
                return Result::Ok(Command { dsc: al[i].0, argv: Vec::new() });
            }
            proof {
                assert(spec_first_exact(folded, i as int) == spec_first_exact(
                    folded,
                    i as int + 1,
                ));
            }
            i = i + 1;
        }
        proof {
            assert(al@[0].1@ == spec_alias_list()[0]);
        }
        let mut best_d: usize = levenshtein_distance(upper.as_str(), al[0].1);
        let mut best_j: usize = 0;
        let mut i2: usize = 1;
        while i2 < al.len()
            invariant
                1 <= i2 <= al@.len(),
                best_j < i2,
                folded == upper_of(cmd@),
                upper@ == folded,
                fch@ == folded,
                al@.len() == spec_alias_list().len(),
                forall|j: int|
                    0 <= j < al@.len() ==> al@[j].0 == spec_alias_kinds()[j] && al@[j].1@
                        == spec_alias_list()[j],
                spec_best(folded) == spec_best_from(folded, i2 as int, best_d as int, best_j as int),
            decreases al@.len() - i2,
        {
            let d = levenshtein_distance(upper.as_str(), al[i2].1);
            proof {
                assert(al@[i2 as int].1@ == spec_alias_list()[i2 as int]);
                assert(d == spec_levenshtein(folded, spec_alias_list()[i2 as int]));
                assert(spec_best_from(folded, i2 as int, best_d as int, best_j as int) == (
                if d < best_d {
                    spec_best_from(folded, i2 as int + 1, d as int, i2 as int)
                } else {
                    spec_best_from(folded, i2 as int + 1, best_d as int, best_j as int)
                }));
            }
            if d < best_d {
                best_d = d;
                best_j = i2;
            }
            i2 = i2 + 1;
        }
        proof {
            assert(spec_first_exact(folded, i as int) is None);
            assert(spec_best(folded) == (best_d as int, best_j as int));
        }
        if best_d >= 3 {
            return Result::Err(String::new());
        }
        let sugg = str_to_chars(al[best_j].1);
        proof {
            assert(al@[best_j as int].1@ == spec_alias_list()[best_j as int]);
        }
        Result::Err(chars_to_string(&sugg))
    }
}

} // verus!
