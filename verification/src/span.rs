//! Lengths of time, to the nanosecond.

use vstd::prelude::*;

verus! {

/// The number of nanoseconds in a second.
pub const NANOS_PER_SEC: u32 = 1_000_000_000;

/// The Debug notation that std gives to a duration of `secs` seconds and
/// `nanos` nanoseconds, such as `2.5s`.
pub uninterp spec fn duration_text(secs: u64, nanos: u32) -> Seq<char>;

/// Calls std's Debug formatting of `std::time::Duration`, on the duration with
/// these two parts. The result depends on the parts alone; `duration_text` names
/// it, and nothing else is claimed of it.
#[verifier::external_body]
fn debug_duration(secs: u64, nanos: u32) -> (text: String)
    requires
        nanos < NANOS_PER_SEC,
    ensures
        text@ == duration_text(secs, nanos),
{
    format!("{:?}", std::time::Duration::new(secs, nanos))
}

/// The number of nanoseconds in `secs` seconds and `nanos` nanoseconds.
pub open spec fn total_nanos(secs: nat, nanos: nat) -> nat {
    secs * NANOS_PER_SEC as nat + nanos
}

/// A length of time, as whole seconds and the nanoseconds of a part of one. The
/// view is the number of nanoseconds in all.
#[derive(Debug, Clone, Copy, PartialEq, Eq)]
pub struct Span {
    secs: u64,
    nanos: u32,
}

impl View for Span {
    type V = nat;

    closed spec fn view(&self) -> nat {
        total_nanos(self.secs as nat, self.nanos as nat)
    }
}

impl Span {
    #[verifier::type_invariant]
    spec fn wf(self) -> bool {
        self.nanos < NANOS_PER_SEC
    }

    /// The span of `secs` seconds and `nanos` nanoseconds, if the latter are less
    /// than a second.
    pub fn new(secs: u64, nanos: u32) -> (span: Option<Span>)
        ensures
            span is Some <==> nanos < NANOS_PER_SEC,
            span matches Some(s) ==> s@ == total_nanos(secs as nat, nanos as nat),
    {
        if nanos < NANOS_PER_SEC {
            Some(Span { secs, nanos })
        } else {
            None
        }
    }

    /// The span of `secs` seconds.
    pub fn from_secs(secs: u64) -> (span: Span)
        ensures
            span@ == total_nanos(secs as nat, 0),
    {
        Span { secs, nanos: 0 }
    }

    /// Whether this span is longer than `other`.
    pub fn exceeds(&self, other: &Span) -> (longer: bool)
        ensures
            longer <==> self@ > other@,
    {
        proof {
            use_type_invariant(self);
            use_type_invariant(other);
        }
        self.secs > other.secs || (self.secs == other.secs && self.nanos > other.nanos)
    }

    /// The time from `earlier` to this moment, both counted from one origin; none
    /// where `earlier` is in fact the later of the two.
    pub fn since(&self, earlier: &Span) -> (elapsed: Span)
        ensures
            elapsed@ == if self@ > earlier@ {
                (self@ - earlier@) as nat
            } else {
                0
            },
    {
        proof {
            use_type_invariant(self);
            use_type_invariant(earlier);
        }
        if self.exceeds(earlier) {
            if self.nanos >= earlier.nanos {
                Span { secs: self.secs - earlier.secs, nanos: self.nanos - earlier.nanos }
            } else {
                Span {
                    secs: self.secs - earlier.secs - 1,
                    nanos: self.nanos + NANOS_PER_SEC - earlier.nanos,
                }
            }
        } else {
            Span { secs: 0, nanos: 0 }
        }
    }

    /// The Debug notation of the span.
    pub fn text(&self) -> (text: String)
        ensures
            text@ == span_text(self@),
    {
        proof {
            use_type_invariant(self);
            let per: int = NANOS_PER_SEC as int;
            vstd::arithmetic::div_mod::lemma_fundamental_div_mod_converse(
                self@ as int,
                per,
                self.secs as int,
                self.nanos as int,
            );
        }
        debug_duration(self.secs, self.nanos)
    }
}

/// The Debug notation of a span of `nanos` nanoseconds.
pub open spec fn span_text(nanos: nat) -> Seq<char> {
    duration_text(
        (nanos / NANOS_PER_SEC as nat) as u64,
        (nanos % NANOS_PER_SEC as nat) as u32,
    )
}

/// A span has a thousand million nanoseconds for each second, and its Debug
/// notation is that of a duration with the same seconds and nanoseconds.
pub proof fn law_parts(secs: u64, nanos: u32)
    requires
        nanos < 1_000_000_000,
    ensures
        total_nanos(secs as nat, nanos as nat) == secs * 1_000_000_000 + nanos,
        span_text((secs * 1_000_000_000 + nanos) as nat) == duration_text(secs, nanos),
        NANOS_PER_SEC == 1_000_000_000,
{
    vstd::arithmetic::div_mod::lemma_fundamental_div_mod_converse(
        secs * 1_000_000_000 + nanos,
        1_000_000_000,
        secs as int,
        nanos as int,
    );
}

} // verus!
