//! Safe operating-point table: an immutable mapping from frequency to
//! the minimum voltage proven safe at that frequency.
//!
//! Keys are kept strictly ascending and the table is never empty. The
//! lowest key is the device's minimum allowed frequency and the highest
//! its maximum. Voltage resolution uses ceiling semantics: the voltage
//! of the smallest key at or above the requested frequency, falling
//! back to the highest key's voltage, so a frequency is never applied
//! at a voltage proven only for a lower frequency.

use vstd::prelude::*;

verus! {

/// One safe (frequency, voltage) operating point.
#[derive(Clone, Copy, PartialEq, Eq, Structural, Debug)]
pub struct SafePoint {
    pub frequency: u16,
    pub voltage: u16,
}

/// Why a table could not be built.
#[derive(Clone, Copy, PartialEq, Eq, Structural, Debug)]
pub enum TableError {
    Empty,
}

/// Voltage paired with frequency `f` by the latest entry of `s` that
/// carries `f`: when a key occurs twice, the later occurrence wins.
pub open spec fn last_voltage_for(s: Seq<SafePoint>, f: u16) -> Option<u16>
    decreases s.len(),
{
    if s.len() == 0 {
        None
    } else if s.last().frequency == f {
        Some(s.last().voltage)
    } else {
        last_voltage_for(s.drop_last(), f)
    }
}

/// Ceiling voltage lookup over a sorted point sequence: the voltage of
/// the first point whose frequency is at least `f`, or the last point's
/// voltage when every frequency lies below `f` (or 0 for an empty
/// sequence, which a well-formed table never holds).
pub open spec fn spec_resolve_voltage(s: Seq<SafePoint>, f: u16) -> u16
    decreases s.len(),
{
    if s.len() == 0 {
        0
    } else if s.len() == 1 {
        s[0].voltage
    } else if s[0].frequency >= f {
        s[0].voltage
    } else {
        spec_resolve_voltage(s.drop_first(), f)
    }
}

pub struct SafeOperatingPointTable {
    points: Vec<SafePoint>,
}

impl View for SafeOperatingPointTable {
    type V = Seq<SafePoint>;

    closed spec fn view(&self) -> Seq<SafePoint> {
        self.points@
    }
}

impl SafeOperatingPointTable {
    /// Invariant: non-empty, frequencies strictly ascending.
    pub open spec fn wf(&self) -> bool {
        &&& self@.len() > 0
        &&& forall|i: int, j: int|
            0 <= i < j < self@.len() ==> self@[i].frequency < self@[j].frequency
    }

    pub open spec fn spec_min_freq(&self) -> u16 {
        self@[0].frequency
    }

    pub open spec fn spec_max_freq(&self) -> u16 {
        self@.last().frequency
    }

    /// Build the table from configured points, in any order and with
    /// duplicate keys allowed; the later entry for a key wins. Fails
    /// exactly when no point is given.
    #[verifier::rlimit(100)]
    pub fn new(input: Vec<SafePoint>) -> (r: Result<SafeOperatingPointTable, TableError>)
        ensures
            match r {
                Ok(t) => {
                    &&& input@.len() > 0
                    &&& t.wf()
                    &&& forall|j: int|
                        0 <= j < t@.len() ==> last_voltage_for(input@, #[trigger] t@[j].frequency)
                            == Some(t@[j].voltage)
                    &&& forall|k: int|
                        0 <= k < input@.len() ==> exists|j: int|
                            0 <= j < t@.len() && t@[j].frequency == #[trigger] input@[
                                k
                            ].frequency
                    &&& forall|j: int|
                        0 <= j < t@.len() ==> exists|k: int|
                            0 <= k < input@.len() && input@[k].frequency == #[trigger] t@[
                                j
                            ].frequency
                },
                Err(e) => input@.len() == 0 && e == TableError::Empty,
            },
    {
        let mut points: Vec<SafePoint> = Vec::new();
        let mut k: usize = 0;
        while k < input.len()
            invariant
                k <= input@.len(),
                forall|i: int, j: int|
                    0 <= i < j < points@.len() ==> points@[i].frequency < points@[j].frequency,
                forall|j: int|
                    0 <= j < points@.len() ==> last_voltage_for(
                        input@.take(k as int),
                        #[trigger] points@[j].frequency,
                    ) == Some(points@[j].voltage),
                forall|kk: int|
                    0 <= kk < k ==> exists|j: int|
                        0 <= j < points@.len() && points@[j].frequency == #[trigger] input@[
                            kk
                        ].frequency,
                forall|j: int|
                    0 <= j < points@.len() ==> exists|kk: int|
                        0 <= kk < k && input@[kk].frequency == #[trigger] points@[j].frequency,
                points@.len() > 0 <==> k > 0,
            decreases input@.len() - k,
        {
            let p = input[k];
            let mut pos: usize = 0;
            while pos < points.len() && points[pos].frequency < p.frequency
                invariant
                    pos <= points@.len(),
                    forall|i: int| 0 <= i < pos ==> points@[i].frequency < p.frequency,
                decreases points@.len() - pos,
            {
                pos = pos + 1;
            }
            let ghost pre = points@;
            let replaced = pos < points.len() && points[pos].frequency == p.frequency;
            if replaced {
                points[pos] = p;
            } else {
                proof {
                    pre.insert_ensures(pos as int, p);
                }
                points.insert(pos, p);
            }
            proof {
                // Pointwise view of the updated vector, and uniqueness of
                // the slot holding p's frequency.
                if replaced {
                    assert(forall|j: int|
                        0 <= j < points@.len() && j != pos as int ==> points@[j] == pre[j]);
                    assert(forall|j: int|
                        0 <= j < points@.len() ==> points@[j].frequency == pre[j].frequency);
                } else {
                    assert(forall|j: int| 0 <= j < pos as int ==> points@[j] == pre[j]);
                    assert(forall|j: int|
                        (pos as int) <= j < pre.len() ==> points@[j + 1] == pre[j]);
                    assert(forall|j: int|
                        (pos as int) < j < points@.len() ==> points@[j] == pre[j - 1]);
                }
                assert(points@[pos as int] == p);
                assert forall|i: int, j: int|
                    0 <= i < j < points@.len() implies points@[i].frequency < points@[
                    j
                ].frequency by {}
                assert forall|j: int|
                    0 <= j < points@.len() && j != pos as int implies points@[j].frequency
                    != p.frequency by {}
                // The latest-occurrence lookup over one more input entry.
                assert(input@.take(k + 1).drop_last() =~= input@.take(k as int));
                assert(input@.take(k + 1).last() == input@[k as int]);
                assert forall|j: int|
                    0 <= j < points@.len() implies last_voltage_for(
                    input@.take(k + 1),
                    #[trigger] points@[j].frequency,
                ) == Some(points@[j].voltage) by {
                    if j == pos as int {
                        assert(last_voltage_for(input@.take(k + 1), p.frequency) == Some(
                            p.voltage,
                        ));
                    } else {
                        assert(last_voltage_for(input@.take(k + 1), points@[j].frequency)
                            == last_voltage_for(input@.take(k as int), points@[j].frequency));
                        if !replaced && (pos as int) < j {
                            assert(points@[j] == pre[j - 1]);
                        }
                    }
                }
                // Every input key seen so far has a slot.
                assert forall|kk: int| 0 <= kk < k + 1 implies exists|j: int|
                    0 <= j < points@.len() && points@[j].frequency == #[trigger] input@[
                    kk
                ].frequency by {
                    if input@[kk].frequency == p.frequency {
                        assert(points@[pos as int].frequency == input@[kk].frequency);
                    } else {
                        let j0 = choose|j: int|
                            0 <= j < pre.len() && pre[j].frequency == input@[kk].frequency;
                        if replaced || j0 < pos as int {
                            assert(points@[j0].frequency == input@[kk].frequency);
                        } else {
                            assert(points@[j0 + 1].frequency == input@[kk].frequency);
                        }
                    }
                }
                // Every slot's key came from the input seen so far.
                assert forall|j: int| 0 <= j < points@.len() implies exists|kk: int|
                    0 <= kk < k + 1 && input@[kk].frequency == #[trigger] points@[
                    j
                ].frequency by {
                    if j == pos as int {
                        assert(input@[k as int].frequency == points@[j].frequency);
                    } else {
                        let jpre: int = if !replaced && (pos as int) < j {
                            j - 1
                        } else {
                            j
                        };
                        let kk0 = choose|kk: int|
                            0 <= kk < k && input@[kk].frequency == pre[jpre].frequency;
                        assert(input@[kk0].frequency == points@[j].frequency);
                    }
                }
            }
            k = k + 1;
        }
        if points.len() == 0 {
            Err(TableError::Empty)
        } else {
            proof {
                assert(input@.take(input@.len() as int) =~= input@);
            }
            Ok(SafeOperatingPointTable { points })
        }
    }

    /// Lowest safe frequency: the table's floor.
    pub fn min_freq(&self) -> (f: u16)
        requires
            self.wf(),
        ensures
            f == self.spec_min_freq(),
    {
        self.points[0].frequency
    }

    /// Highest safe frequency: the table's ceiling.
    pub fn max_freq(&self) -> (f: u16)
        requires
            self.wf(),
        ensures
            f == self.spec_max_freq(),
    {
        self.points[self.points.len() - 1].frequency
    }

    /// The lowest (safest) operating point, used as the fail-safe
    /// fallback after a failed hardware write.
    pub fn fallback_point(&self) -> (p: SafePoint)
        requires
            self.wf(),
        ensures
            p == self@[0],
    {
        self.points[0]
    }

    /// Ceiling voltage lookup for `freq`.
    pub fn resolve_voltage(&self, freq: u16) -> (v: u16)
        requires
            self.wf(),
        ensures
            v == spec_resolve_voltage(self@, freq),
    {
        let n = self.points.len();
        let mut i: usize = 0;
        proof {
            assert(self@.skip(0) =~= self@);
        }
        while i < n - 1
            invariant
                self.wf(),
                n == self@.len(),
                i < n,
                forall|j: int| 0 <= j < i ==> self@[j].frequency < freq,
                spec_resolve_voltage(self@, freq) == spec_resolve_voltage(
                    self@.skip(i as int),
                    freq,
                ),
            decreases n - i,
        {
            if self.points[i].frequency >= freq {
                return self.points[i].voltage;
            }
            proof {
                assert(self@.skip(i as int).drop_first() =~= self@.skip(i + 1));
            }
            i = i + 1;
        }
        self.points[n - 1].voltage
    }
}

/// The ceiling lookup never interpolates: over a sorted point sequence
/// the resolved voltage is the voltage of the first point whose
/// frequency reaches `f` — the ceiling entry at index `i`.
pub proof fn lemma_resolve_is_ceiling(s: Seq<SafePoint>, f: u16, i: int)
    requires
        forall|a: int, b: int| 0 <= a < b < s.len() ==> s[a].frequency < s[b].frequency,
        0 <= i < s.len(),
        s[i].frequency >= f,
        forall|j: int| 0 <= j < i ==> s[j].frequency < f,
    ensures
        spec_resolve_voltage(s, f) == s[i].voltage,
    decreases i,
{
    if i == 0 {
        assert(spec_resolve_voltage(s, f) == s[0].voltage);
    } else {
        let t = s.drop_first();
        assert(forall|a: int| 0 <= a < t.len() ==> t[a] == s[a + 1]);
        lemma_resolve_is_ceiling(t, f, i - 1);
    }
}

/// When every frequency in the sorted sequence lies below `f`, the
/// lookup falls back to the last (highest) point's voltage.
pub proof fn lemma_resolve_above_max(s: Seq<SafePoint>, f: u16)
    requires
        s.len() > 0,
        forall|a: int, b: int| 0 <= a < b < s.len() ==> s[a].frequency < s[b].frequency,
        forall|i: int| 0 <= i < s.len() ==> #[trigger] s[i].frequency < f,
    ensures
        spec_resolve_voltage(s, f) == s.last().voltage,
    decreases s.len(),
{
    if s.len() > 1 {
        let t = s.drop_first();
        assert(forall|a: int| 0 <= a < t.len() ==> t[a] == s[a + 1]);
        lemma_resolve_above_max(t, f);
        assert(t.last() == s.last());
    }
}

} // verus!
