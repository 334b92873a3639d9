//! The paired-magnitude state: a labelled matter/antimatter pair of
//! fixed-point magnitudes, the coherence score derived from them, and the
//! observed flag that records whether the pair has been collapsed.

use crate::decimal::format_milli;
use crate::decimal::milli_str;
use crate::ratio::ratio_milli;
use crate::ratio::Ratio;
use vstd::math::abs;
use vstd::prelude::*;
use vstd::string::StringExecFns;

verus! {

/// Largest magnitude, in milli-units, that a state accepts: one billion
/// whole units. Keeps every derived sum and difference within `i64`.
pub const MAG_LIMIT: i64 = 1_000_000_000_000;

/// Denominator of the coherence score of the pair `(a, b)`, both in
/// milli-units: `|a| + |b| + 1000`. In whole units this is
/// `|a| + |b| + 1`; the `+ 1` keeps the denominator positive even when
/// both magnitudes are zero.
pub open spec fn coh_den(a: int, b: int) -> int {
    abs(a) as int + abs(b) as int + 1000
}

/// Numerator of the coherence score of the pair `(a, b)`: the ratio
/// `coh_num / coh_den` equals `1 - |a - b| / (|a| + |b| + 1)` with the
/// magnitudes read in whole units.
pub open spec fn coh_num(a: int, b: int) -> int {
    coh_den(a, b) - abs(a - b) as int
}

/// A labelled magnitude. The magnitude is a fixed-point count of
/// milli-units: `value == 42_000` stands for 42.000.
#[derive(Clone, Debug)]
pub struct QToken {
    pub qtype: String,
    pub value: i64,
}

/// A dual field: a matter/antimatter pair of tokens plus the coherence
/// score derived from their magnitudes at construction.
#[derive(Clone, Debug)]
pub struct QuasiField {
    pub matter: QToken,
    pub antimatter: QToken,
    pub coherence: Ratio,
}

/// The owning entity: an identifier, a dual field, and the flag that
/// records whether the state has been observed (collapsed).
#[derive(Clone, Debug)]
pub struct QuasiState {
    pub id: String,
    pub field: QuasiField,
    pub observed: bool,
}

/// Mathematical image of a token: label characters and magnitude.
pub ghost struct QTokenView {
    pub qtype: Seq<char>,
    pub value: int,
}

/// Mathematical image of a dual field.
pub ghost struct QuasiFieldView {
    pub matter: QTokenView,
    pub antimatter: QTokenView,
    pub coherence: Ratio,
}

/// Mathematical image of a state.
pub ghost struct QuasiStateView {
    pub id: Seq<char>,
    pub field: QuasiFieldView,
    pub observed: bool,
}

impl View for QToken {
    type V = QTokenView;

    open spec fn view(&self) -> QTokenView {
        QTokenView { qtype: self.qtype@, value: self.value as int }
    }
}

impl View for QuasiField {
    type V = QuasiFieldView;

    open spec fn view(&self) -> QuasiFieldView {
        QuasiFieldView {
            matter: self.matter@,
            antimatter: self.antimatter@,
            coherence: self.coherence,
        }
    }
}

impl View for QuasiState {
    type V = QuasiStateView;

    open spec fn view(&self) -> QuasiStateView {
        QuasiStateView { id: self.id@, field: self.field@, observed: self.observed }
    }
}

/// Swapping the pair: matter and antimatter exchange places whole (label
/// and magnitude together); the stored coherence score is kept.
pub open spec fn invert_view(f: QuasiFieldView) -> QuasiFieldView {
    QuasiFieldView { matter: f.antimatter, antimatter: f.matter, coherence: f.coherence }
}

/// Swapping the pair at the state level: the identifier and the observed
/// flag are untouched.
pub open spec fn invert_state_view(s: QuasiStateView) -> QuasiStateView {
    QuasiStateView { id: s.id, field: invert_view(s.field), observed: s.observed }
}

/// Observing at the state level: only the observed flag changes, and only
/// from false to true.
pub open spec fn observe_view(s: QuasiStateView) -> QuasiStateView {
    QuasiStateView { id: s.id, field: s.field, observed: true }
}

/// Numerator of the collapsed value of a field: the sum of the two
/// magnitudes in milli-units. Over the denominator 2000 this is the mean
/// of the magnitudes in whole units.
pub open spec fn collapse_num(f: QuasiFieldView) -> int {
    f.matter.value + f.antimatter.value
}

/// The textual state tag of the summary: "Observed" once collapsed,
/// "Superposed" before.
pub open spec fn state_tag(observed: bool) -> Seq<char> {
    if observed {
        "Observed"@
    } else {
        "Superposed"@
    }
}

/// Everything of the rendered summary that precedes the state tag:
/// identifier, label, the two magnitudes and the coherence score, each
/// number spelled to three decimal places.
pub open spec fn render_head(s: QuasiStateView) -> Seq<char> {
    "QuasiState ["@ + s.id + "]\nType: "@ + s.field.matter.qtype + "\nMatter: "@ + milli_str(
        s.field.matter.value,
    ) + "\nAntimatter: "@ + milli_str(s.field.antimatter.value) + "\nCoherence: "@ + milli_str(
        ratio_milli(s.field.coherence.num as int, s.field.coherence.den as int),
    ) + "\nState: "@
}

/// The whole rendered summary: the head followed by the state tag.
pub open spec fn render_str(s: QuasiStateView) -> Seq<char> {
    render_head(s) + state_tag(s.observed)
}

impl QuasiField {
    /// Well-formedness: magnitudes within bounds, the coherence score
    /// exactly as derived from them, and one label shared by the pair.
    pub open spec fn wf(&self) -> bool {
        &&& -MAG_LIMIT <= self.matter.value <= MAG_LIMIT
        &&& -MAG_LIMIT <= self.antimatter.value <= MAG_LIMIT
        &&& self.coherence.num == coh_num(self.matter.value as int, self.antimatter.value as int)
        &&& self.coherence.den == coh_den(self.matter.value as int, self.antimatter.value as int)
        &&& self.matter.qtype@ == self.antimatter.qtype@
    }
}

impl QuasiState {
    /// Well-formedness of a state: its field is well formed.
    pub open spec fn wf(&self) -> bool {
        self.field.wf()
    }

    /// A fresh superposed state: both tokens carry `qtype`, the coherence
    /// score is derived from the two magnitudes, and the state is not yet
    /// observed.
    pub fn new(id: &str, qtype: &str, matter: i64, antimatter: i64) -> (r: Self)
        requires
            -MAG_LIMIT <= matter <= MAG_LIMIT,
            -MAG_LIMIT <= antimatter <= MAG_LIMIT,
        ensures
            r.wf(),
            r.id@ == id@,
            r.observed == false,
            r.field.matter.qtype@ == qtype@,
            r.field.antimatter.qtype@ == qtype@,
            r.field.matter.value == matter,
            r.field.antimatter.value == antimatter,
            r.field.coherence.num == coh_num(matter as int, antimatter as int),
            r.field.coherence.den == coh_den(matter as int, antimatter as int),
    {
        let abs_m: i64 = if matter < 0 {
            -matter
        } else {
            matter
        };
        let abs_a: i64 = if antimatter < 0 {
            -antimatter
        } else {
            antimatter
        };
        let diff: i64 = matter - antimatter;
        let abs_d: i64 = if diff < 0 {
            -diff
        } else {
            diff
        };
        let den: i64 = abs_m + abs_a + 1000;
        let num: i64 = den - abs_d;
        let field = QuasiField {
            matter: QToken { qtype: qtype.to_owned(), value: matter },
            antimatter: QToken { qtype: qtype.to_owned(), value: antimatter },
            coherence: Ratio { num, den },
        };
        QuasiState { id: id.to_owned(), field, observed: false }
    }

    /// Collapse the superposition: set the observed flag and return the
    /// mean of the two magnitudes, as the exact ratio
    /// `(matter + antimatter) / 2000` in whole units. The field itself is
    /// untouched, so a second call returns the same value.
    pub fn observe(&mut self) -> (r: Ratio)
        requires
            old(self).wf(),
        ensures
            final(self)@ == observe_view(old(self)@),
            final(self).wf(),
            r.num == collapse_num(old(self).field@),
            r.den == 2000,
    {
        self.observed = true;
        Ratio { num: self.field.matter.value + self.field.antimatter.value, den: 2000 }
    }

    /// The stored coherence score, unchanged. Read-only; independent of
    /// the observed flag.
    pub fn measure_coherence(&self) -> (r: Ratio)
        ensures
            r == self.field.coherence,
    {
        self.field.coherence
    }

    /// Exchange matter and antimatter in place, labels and magnitudes
    /// together. The stored coherence score is not recomputed: it is
    /// symmetric in the pair, so well-formedness is preserved.
    pub fn invert(&mut self)
        ensures
            final(self)@ == invert_state_view(old(self)@),
            old(self).wf() ==> final(self).wf(),
    {
        core::mem::swap(&mut self.field.matter, &mut self.field.antimatter);
    }

    /// The deterministic multi-line summary: identifier, label, the two
    /// magnitudes and the coherence score to three decimal places, and the
    /// state tag: "Observed" once collapsed, "Superposed" before. Pure;
    /// no field changes.
    pub fn render(&self) -> (r: String)
        requires
            self.wf(),
        ensures
            r@ == render_str(self@),
    {
        proof {
            lemma_coherence_in_unit(
                self.field.matter.value as int,
                self.field.antimatter.value as int,
            );
        }
        let mut s = "QuasiState [".to_owned();
        s.append(self.id.as_str());
        s.append("]\nType: ");
        s.append(self.field.matter.qtype.as_str());
        s.append("\nMatter: ");
        let matter_text = format_milli(self.field.matter.value);
        s.append(matter_text.as_str());
        s.append("\nAntimatter: ");
        let antimatter_text = format_milli(self.field.antimatter.value);
        s.append(antimatter_text.as_str());
        s.append("\nCoherence: ");
        let coherence_text = format_milli(self.field.coherence.to_milli());
        s.append(coherence_text.as_str());
        s.append("\nState: ");
        if self.observed {
            s.append("Observed");
        } else {
            s.append("Superposed");
        }
        proof {
            assert(s@ =~= render_str(self@));
        }
        s
    }
}

/// Law: for any pair of magnitudes the coherence score is a well-formed
/// fraction in the closed unit interval; the numerator is in fact positive.
pub proof fn lemma_coherence_in_unit(a: int, b: int)
    ensures
        0 < coh_num(a, b) <= coh_den(a, b),
{
}

/// Law: the coherence score does not depend on the order of the pair, so
/// inversion leaves the measured coherence unchanged.
pub proof fn lemma_coherence_swap_symmetric(a: int, b: int)
    ensures
        coh_num(b, a) == coh_num(a, b),
        coh_den(b, a) == coh_den(a, b),
{
}

/// Law: inverting a field twice restores it exactly, field for field.
pub proof fn lemma_invert_involution(f: QuasiFieldView)
    ensures
        invert_view(invert_view(f)) == f,
{
}

/// Law: observing is idempotent: one observation sets the flag and
/// changes nothing else, and a second observation changes nothing at all.
pub proof fn lemma_observe_idempotent(s: QuasiStateView)
    ensures
        observe_view(s).observed,
        observe_view(s).field == s.field,
        observe_view(s).id == s.id,
        observe_view(observe_view(s)) == observe_view(s),
{
}

/// Law: the observed state is terminal: neither observing again nor
/// inverting makes a state superposed again.
pub proof fn lemma_observed_is_terminal(s: QuasiStateView)
    requires
        s.observed,
    ensures
        observe_view(s).observed,
        invert_state_view(s).observed,
{
}

/// Law: before any observation the rendered summary ends in the tag
/// "Superposed"; after one observation it ends in "Observed", and it still
/// does after any further observation or inversion.
pub proof fn lemma_render_tag_lifecycle(s: QuasiStateView)
    requires
        !s.observed,
    ensures
        render_str(s) == render_head(s) + "Superposed"@,
        render_str(observe_view(s)) == render_head(observe_view(s)) + "Observed"@,
        render_str(invert_state_view(observe_view(s))) == render_head(
            invert_state_view(observe_view(s)),
        ) + "Observed"@,
        render_str(observe_view(observe_view(s))) == render_head(observe_view(observe_view(s)))
            + "Observed"@,
{
}

} // verus!
