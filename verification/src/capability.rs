//! The optional families of function kinds, and the set of them that a
//! configuration enables.
//!
//! A kind whose family is switched off is never built: the check is made
//! where a plan is constructed, and inference itself has no branch for it.

use vstd::prelude::*;
use crate::kind::{FunctionKind, StringFunction, TemporalFunction, ListFunction};

verus! {

/// One optional family of function kinds.
#[derive(Clone, Copy, Debug, PartialEq, Eq, Structural)]
pub enum Capability {
    Abs,
    RowHash,
    ArgWhere,
    SearchSorted,
    Strings,
    Regex,
    StringJustify,
    ConcatStr,
    StringFromRadix,
    Temporal,
    Timezones,
    DateOffset,
    Trigonometry,
    Sign,
    RollingWindow,
    Moment,
    RoundSeries,
    IsIn,
    ListTake,
    ListCount,
    Structs,
    TopK,
    Categoricals,
    ApproxUnique,
    Diff,
    Interpolate,
    DotProduct,
    Log,
}

/// Whether a text operation belongs to the family `c`.
pub open spec fn string_needs(s: StringFunction, c: Capability) -> bool {
    c == Capability::Strings || match s {
        StringFunction::Contains | StringFunction::Replace => c == Capability::Regex,
        StringFunction::Zfill | StringFunction::LJust | StringFunction::RJust => c
            == Capability::StringJustify,
        StringFunction::Strptime(_) => c == Capability::Temporal,
        StringFunction::ConcatVertical | StringFunction::ConcatHorizontal => c
            == Capability::ConcatStr,
        StringFunction::FromRadix => c == Capability::StringFromRadix,
        _ => false,
    }
}

/// Whether a temporal operation belongs to the family `c`.
pub open spec fn temporal_needs(t: TemporalFunction, c: Capability) -> bool {
    c == Capability::Temporal || match t {
        TemporalFunction::CastTimezone(_) | TemporalFunction::TzLocalize(_) => c
            == Capability::Timezones,
        _ => false,
    }
}

/// Whether a list operation belongs to the family `c`.
pub open spec fn list_needs(l: ListFunction, c: Capability) -> bool {
    match l {
        ListFunction::Contains => c == Capability::IsIn,
        ListFunction::Take => c == Capability::ListTake,
        ListFunction::CountMatch => c == Capability::ListCount,
        _ => false,
    }
}

/// Whether a kind belongs to the family `c`, so that it exists only where
/// `c` is enabled. A kind may belong to several families, or to none.
pub open spec fn needs(kind: FunctionKind, c: Capability) -> bool {
    match kind {
        FunctionKind::Abs => c == Capability::Abs,
        FunctionKind::Hash => c == Capability::RowHash,
        FunctionKind::ArgWhere => c == Capability::ArgWhere,
        FunctionKind::SearchSorted => c == Capability::SearchSorted,
        FunctionKind::StringExpr(s) => string_needs(s, c),
        FunctionKind::TemporalExpr(t) => temporal_needs(t, c),
        FunctionKind::DateOffset => c == Capability::DateOffset,
        FunctionKind::Trigonometry => c == Capability::Trigonometry,
        FunctionKind::Sign => c == Capability::Sign,
        FunctionKind::RollingSkew => c == Capability::RollingWindow || c == Capability::Moment,
        FunctionKind::Clip | FunctionKind::Round | FunctionKind::Floor | FunctionKind::Ceil => c
            == Capability::RoundSeries,
        FunctionKind::ListExpr(l) => list_needs(l, c),
        FunctionKind::StructExpr(_) => c == Capability::Structs,
        FunctionKind::TopK => c == Capability::TopK,
        FunctionKind::Categorical(_) => c == Capability::Categoricals,
        FunctionKind::ApproxUnique => c == Capability::ApproxUnique,
        FunctionKind::Diff => c == Capability::Diff,
        FunctionKind::Interpolate => c == Capability::Interpolate,
        FunctionKind::Dot => c == Capability::DotProduct,
        FunctionKind::Entropy | FunctionKind::Log | FunctionKind::Log1p | FunctionKind::Exp => c
            == Capability::Log,
        _ => false,
    }
}

/// A configuration admits a kind when every family of the kind is enabled.
pub open spec fn admitted(enabled: Set<Capability>, kind: FunctionKind) -> bool {
    forall|c: Capability| needs(kind, c) ==> enabled.contains(c)
}

/// The families that a configuration enables.
pub struct CapabilitySet {
    flags: Vec<Capability>,
}

impl View for CapabilitySet {
    type V = Set<Capability>;

    closed spec fn view(&self) -> Set<Capability> {
        self.flags@.to_set()
    }
}

impl CapabilitySet {
    /// The configuration with every optional family switched off.
    pub fn new() -> (r: CapabilitySet)
        ensures
            r@ == Set::<Capability>::empty(),
    {
        let r = CapabilitySet { flags: Vec::new() };
        assert(r@ =~= Set::<Capability>::empty());
        r
    }

    /// Switches one family on.
    pub fn enable(&mut self, c: Capability)
        ensures
            final(self)@ == old(self)@.insert(c),
    {
        self.flags.push(c);
        proof {
            let before = old(self).flags@;
            let after = self.flags@;
            assert(after == before.push(c));
            assert forall|x: Capability| after.to_set().contains(x) == before.to_set().insert(
                c,
            ).contains(x) by {
                if after.contains(x) {
                    let k = choose|k: int| 0 <= k < after.len() && after[k] == x;
                    if k < before.len() {
                        assert(before[k] == x);
                    }
                }
                if before.contains(x) {
                    let k = choose|k: int| 0 <= k < before.len() && before[k] == x;
                    assert(after[k] == x);
                }
                if x == c {
                    assert(after[before.len() as int] == c);
                }
            }
            assert(self@ =~= old(self)@.insert(c));
        }
    }

    /// Whether a family is switched on.
    pub fn has(&self, c: Capability) -> (r: bool)
        ensures
            r == self@.contains(c),
    {
        let mut i: usize = 0;
        while i < self.flags.len()
            invariant
                i <= self.flags.len(),
                forall|k: int| 0 <= k < i ==> self.flags@[k] != c,
            decreases self.flags.len() - i,
        {
            if self.flags[i] == c {
                assert(self.flags@.contains(c));
                return true;
            }
            i += 1;
        }
        assert(!self.flags@.contains(c));
        false
    }

    fn admits_string(&self, s: &StringFunction) -> (r: bool)
        ensures
            r == (forall|c: Capability| string_needs(*s, c) ==> self@.contains(c)),
    {
        let base = self.has(Capability::Strings);
        let extra = match s {
            StringFunction::Contains | StringFunction::Replace => self.has(Capability::Regex),
            StringFunction::Zfill | StringFunction::LJust | StringFunction::RJust => self.has(
                Capability::StringJustify,
            ),
            StringFunction::Strptime(_) => self.has(Capability::Temporal),
            StringFunction::ConcatVertical | StringFunction::ConcatHorizontal => self.has(
                Capability::ConcatStr,
            ),
            StringFunction::FromRadix => self.has(Capability::StringFromRadix),
            _ => true,
        };
        proof {
            if !base {
                assert(string_needs(*s, Capability::Strings));
            }
            if !extra {
                assert(string_needs(*s, Capability::Regex) || string_needs(
                    *s,
                    Capability::StringJustify,
                ) || string_needs(*s, Capability::Temporal) || string_needs(
                    *s,
                    Capability::ConcatStr,
                ) || string_needs(*s, Capability::StringFromRadix));
            }
        }
        base && extra
    }

    /// Whether this configuration has the kind: every family that the kind
    /// belongs to is switched on.
    pub fn admits(&self, kind: &FunctionKind) -> (r: bool)
        ensures
            r == admitted(self@, *kind),
    {
        match kind {
            FunctionKind::Abs => self.has(Capability::Abs),
            FunctionKind::Hash => self.has(Capability::RowHash),
            FunctionKind::ArgWhere => self.has(Capability::ArgWhere),
            FunctionKind::SearchSorted => self.has(Capability::SearchSorted),
            FunctionKind::StringExpr(s) => self.admits_string(s),
            FunctionKind::TemporalExpr(t) => {
                let base = self.has(Capability::Temporal);
                let extra = match t {
                    TemporalFunction::CastTimezone(_) | TemporalFunction::TzLocalize(_) => self.has(
                        Capability::Timezones,
                    ),
                    _ => true,
                };
                proof {
                    if !base {
                        assert(needs(*kind, Capability::Temporal));
                    }
                    if !extra {
                        assert(needs(*kind, Capability::Timezones));
                    }
                }
                base && extra
            },
            FunctionKind::DateOffset => self.has(Capability::DateOffset),
            FunctionKind::Trigonometry => self.has(Capability::Trigonometry),
            FunctionKind::Sign => self.has(Capability::Sign),
            FunctionKind::RollingSkew => {
                let window = self.has(Capability::RollingWindow);
                let moment = self.has(Capability::Moment);
                proof {
                    if !window {
                        assert(needs(*kind, Capability::RollingWindow));
                    }
                    if !moment {
                        assert(needs(*kind, Capability::Moment));
                    }
                }
                window && moment
            },
            FunctionKind::Clip | FunctionKind::Round | FunctionKind::Floor
            | FunctionKind::Ceil => self.has(Capability::RoundSeries),
            FunctionKind::ListExpr(l) => match l {
                ListFunction::Contains => self.has(Capability::IsIn),
                ListFunction::Take => self.has(Capability::ListTake),
                ListFunction::CountMatch => self.has(Capability::ListCount),
                ListFunction::Concat | ListFunction::Slice | ListFunction::Get
                | ListFunction::Sum => true,
            },
            FunctionKind::StructExpr(_) => self.has(Capability::Structs),
            FunctionKind::TopK => self.has(Capability::TopK),
            FunctionKind::Categorical(_) => self.has(Capability::Categoricals),
            FunctionKind::ApproxUnique => self.has(Capability::ApproxUnique),
            FunctionKind::Diff => self.has(Capability::Diff),
            FunctionKind::Interpolate => self.has(Capability::Interpolate),
            FunctionKind::Dot => self.has(Capability::DotProduct),
            FunctionKind::Entropy | FunctionKind::Log | FunctionKind::Log1p
            | FunctionKind::Exp => self.has(Capability::Log),
            FunctionKind::NullCount | FunctionKind::Pow | FunctionKind::Coalesce
            | FunctionKind::BinaryExpr(_) | FunctionKind::FillNull { .. }
            | FunctionKind::ShiftAndFill | FunctionKind::DropNans | FunctionKind::Shift
            | FunctionKind::Reverse | FunctionKind::Boolean(_) | FunctionKind::Cumcount
            | FunctionKind::Cumsum | FunctionKind::Cumprod | FunctionKind::Cummin
            | FunctionKind::Cummax | FunctionKind::ShrinkType | FunctionKind::Unique
            | FunctionKind::UpperBound | FunctionKind::LowerBound => true,
        }
    }
}

} // verus!
