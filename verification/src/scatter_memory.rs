//! Editing-session memory for inactive Scatter payloads; active recipes remain
//! owned by the document.
//!
//! Choices are retained by scope and semantic process slot, never by
//! copy-on-edit IDs. The payload type `C` is whatever the caller stores for a
//! random-site character; the memory only ever reads its kind.

use vstd::prelude::*;
use crate::channels::InspectorTarget;
use crate::inspector::PropertyFieldId;

verus! {

/// The typed choice of a random-site process, independent of its payload.
#[derive(Clone, Copy, Debug, PartialEq, Eq, Structural)]
pub enum RandomCharacterKind {
    RawUniform,
    Even,
    Clustered,
}

/// The identity under which one inactive choice is remembered.
pub type MemoryKey = (InspectorTarget, usize, RandomCharacterKind);

#[derive(Clone, Copy, Debug)]
struct Entry<C> {
    target: InspectorTarget,
    slot: usize,
    kind: RandomCharacterKind,
    character: C,
}

/// Retains inactive choices by scope and semantic process slot.
///
/// Wizards clone this workspace memory and publish it only with a successful
/// final Apply.
#[derive(Debug)]
pub struct Memory<C> {
    entries: Vec<Entry<C>>,
}

impl<C: Copy> Clone for Memory<C> {
    /// Copies every remembered choice.
    fn clone(&self) -> (copy: Self)
        ensures
            copy@ == self@,
    {
        proof {
            use_type_invariant(self);
        }
        let mut entries: Vec<Entry<C>> = Vec::new();
        let mut i: usize = 0;
        while i < self.entries.len()
            invariant
                0 <= i <= self.entries@.len(),
                entries@ == self.entries@.take(i as int),
            decreases self.entries@.len() - i,
        {
            entries.push(self.entries[i]);
            proof {
                assert(self.entries@.take(i + 1) =~= self.entries@.take(i as int).push(
                    self.entries@[i as int],
                ));
            }
            i = i + 1;
        }
        proof {
            assert(self.entries@.take(self.entries@.len() as int) =~= self.entries@);
        }
        Memory { entries }
    }
}

spec fn key_of<C>(e: Entry<C>) -> MemoryKey {
    (e.target, e.slot, e.kind)
}

spec fn unique_keys<C>(s: Seq<Entry<C>>) -> bool {
    forall|i: int, j: int| 0 <= i < j < s.len() ==> key_of(s[i]) != key_of(s[j])
}

spec fn entries_map<C>(s: Seq<Entry<C>>) -> Map<MemoryKey, C>
    decreases s.len(),
{
    if s.len() == 0 {
        Map::empty()
    } else {
        entries_map(s.drop_last()).insert(key_of(s.last()), s.last().character)
    }
}

proof fn lemma_entries_map<C>(s: Seq<Entry<C>>)
    ensures
        forall|k: MemoryKey|
            #![trigger entries_map(s).contains_key(k)]
            entries_map(s).contains_key(k) <==> exists|i: int|
                0 <= i < s.len() && key_of(#[trigger] s[i]) == k,
        unique_keys(s) ==> forall|i: int|
            0 <= i < s.len() ==> entries_map(s)[key_of(#[trigger] s[i])] == s[i].character,
    decreases s.len(),
{
    if s.len() > 0 {
        let p = s.drop_last();
        lemma_entries_map(p);
        assert forall|k: MemoryKey| entries_map(s).contains_key(k) implies exists|i: int|
            0 <= i < s.len() && key_of(#[trigger] s[i]) == k by {
            if k == key_of(s.last()) {
                assert(key_of(s[s.len() - 1]) == k);
            } else {
                assert(entries_map(p).contains_key(k));
                let i = choose|i: int| 0 <= i < p.len() && key_of(#[trigger] p[i]) == k;
                assert(s[i] == p[i]);
            }
        }
        assert forall|k: MemoryKey|
            (exists|i: int| 0 <= i < s.len() && key_of(#[trigger] s[i]) == k) implies entries_map(
            s,
        ).contains_key(k) by {
            let i = choose|i: int| 0 <= i < s.len() && key_of(#[trigger] s[i]) == k;
            if i < s.len() - 1 {
                assert(p[i] == s[i]);
                assert(key_of(p[i]) == k);
                assert(entries_map(p).contains_key(k));
            } else {
                assert(s.last() == s[i]);
            }
        }
        if unique_keys(s) {
            assert(unique_keys(p)) by {
                assert forall|i: int, j: int| 0 <= i < j < p.len() implies key_of(p[i]) != key_of(
                    p[j],
                ) by {
                    assert(p[i] == s[i] && p[j] == s[j]);
                }
            }
            assert forall|i: int| 0 <= i < s.len() implies entries_map(s)[key_of(
                #[trigger] s[i],
            )] == s[i].character by {
                if i < s.len() - 1 {
                    assert(p[i] == s[i]);
                    assert(key_of(s[i]) != key_of(s[s.len() - 1]));
                }
            }
        }
    }
}

proof fn lemma_entries_map_push<C>(s: Seq<Entry<C>>, e: Entry<C>)
    ensures
        entries_map(s.push(e)) == entries_map(s).insert(key_of(e), e.character),
{
    assert(s.push(e).drop_last() =~= s);
}

/// Which remembered entries one filtering pass keeps.
#[derive(Clone, Copy)]
enum Retain {
    /// Keeps other scopes, and this scope's slots below `len`.
    InScope { target: InspectorTarget, len: usize },
    /// Keeps everything but one key.
    AllBut { target: InspectorTarget, slot: usize, kind: RandomCharacterKind },
    /// Keeps other scopes; a whole-document clear keeps nothing.
    Cleared { target: InspectorTarget },
}

spec fn keeps(rule: Retain, k: MemoryKey) -> bool {
    match rule {
        Retain::InScope { target, len } => k.0 != target || k.1 < len,
        Retain::AllBut { target, slot, kind } => !(k.0 == target && k.1 == slot && k.2 == kind),
        Retain::Cleared { target } => target != InspectorTarget::DocumentAll && k.0 != target,
    }
}

fn keeps_entry<C: Copy>(rule: Retain, e: Entry<C>) -> (kept: bool)
    ensures
        kept == keeps(rule, key_of(e)),
{
    match rule {
        Retain::InScope { target, len } => e.target != target || e.slot < len,
        Retain::AllBut { target, slot, kind } => !(e.target == target && e.slot == slot && e.kind
            == kind),
        Retain::Cleared { target } => target != InspectorTarget::DocumentAll && e.target != target,
    }
}

spec fn kept_keys(rule: Retain) -> Set<MemoryKey> {
    Set::new(|k: MemoryKey| keeps(rule, k))
}

fn retain_where<C: Copy>(entries: &mut Vec<Entry<C>>, rule: Retain)
    requires
        unique_keys(old(entries)@),
    ensures
        unique_keys(final(entries)@),
        entries_map(final(entries)@) == entries_map(old(entries)@).restrict(kept_keys(rule)),
{
    let ghost s = entries@;
    let mut kept: Vec<Entry<C>> = Vec::new();
    let mut i: usize = 0;
    proof {
        assert(s.take(0) =~= Seq::<Entry<C>>::empty());
        assert(entries_map(kept@) =~= entries_map(s.take(0)).restrict(kept_keys(rule)));
    }
    while i < entries.len()
        invariant
            entries@ == s,
            unique_keys(s),
            0 <= i <= s.len(),
            unique_keys(kept@),
            entries_map(kept@) == entries_map(s.take(i as int)).restrict(kept_keys(rule)),
        decreases s.len() - i,
    {
        let e = entries[i];
        proof {
            assert(s.take(i + 1).drop_last() =~= s.take(i as int));
            assert(s.take(i + 1).last() == e);
            assert(entries_map(s.take(i + 1)) == entries_map(s.take(i as int)).insert(
                key_of(e),
                e.character,
            ));
        }
        if keeps_entry(rule, e) {
            proof {
                lemma_entries_map(kept@);
                lemma_entries_map(s.take(i as int));
                lemma_entries_map_push(kept@, e);
                if exists|a: int| 0 <= a < kept@.len() && key_of(#[trigger] kept@[a]) == key_of(
                    e,
                ) {
                    assert(entries_map(kept@).contains_key(key_of(e)));
                    assert(entries_map(s.take(i as int)).contains_key(key_of(e)));
                    let j = choose|j: int|
                        0 <= j < i && key_of(#[trigger] s.take(i as int)[j]) == key_of(e);
                    assert(s.take(i as int)[j] == s[j]);
                    assert(s[i as int] == e);
                    assert(false);
                }
                assert forall|a: int, b: int| 0 <= a < b < kept@.push(e).len() implies key_of(
                    kept@.push(e)[a],
                ) != key_of(kept@.push(e)[b]) by {
                    if b == kept@.len() {
                        assert(kept@.push(e)[a] == kept@[a]);
                    } else {
                        assert(kept@.push(e)[a] == kept@[a]);
                        assert(kept@.push(e)[b] == kept@[b]);
                    }
                }
                assert(entries_map(kept@.push(e)) =~= entries_map(s.take(i + 1)).restrict(
                    kept_keys(rule),
                ));
            }
            kept.push(e);
        } else {
            proof {
                assert(entries_map(kept@) =~= entries_map(s.take(i + 1)).restrict(
                    kept_keys(rule),
                ));
            }
        }
        i = i + 1;
    }
    proof {
        assert(s.take(s.len() as int) =~= s);
    }
    *entries = kept;
}

/// What a memory remembers after observing the active processes `processes`
/// of `target`: every other scope is unchanged, this scope forgets slots that
/// no longer exist, and each existing slot records its active choice (a raw
/// uniform choice is recorded by forgetting it) while keeping the inactive
/// choices of that slot.
pub open spec fn observed<C>(
    m: Map<MemoryKey, C>,
    target: InspectorTarget,
    processes: Seq<(RandomCharacterKind, C)>,
) -> Map<MemoryKey, C> {
    observed_through(m, target, processes, processes.len())
}

/// The memory after the first `upto` slots of `processes` were recorded.
pub open spec fn observed_through<C>(
    m: Map<MemoryKey, C>,
    target: InspectorTarget,
    processes: Seq<(RandomCharacterKind, C)>,
    upto: nat,
) -> Map<MemoryKey, C> {
    Map::new(
        |k: MemoryKey|
            if k.0 == target && k.1 < upto && k.2 == processes[k.1 as int].0 {
                k.2 != RandomCharacterKind::RawUniform
            } else {
                m.contains_key(k) && (k.0 != target || k.1 < processes.len())
            },
        |k: MemoryKey|
            if k.0 == target && k.1 < upto && k.2 == processes[k.1 as int].0 {
                processes[k.1 as int].1
            } else {
                m[k]
            },
    )
}

/// What a memory remembers after `target` was cleared.
pub open spec fn cleared<C>(m: Map<MemoryKey, C>, target: InspectorTarget) -> Map<MemoryKey, C> {
    if target == InspectorTarget::DocumentAll {
        Map::empty()
    } else {
        m.restrict(Set::new(|k: MemoryKey| k.0 != target))
    }
}

impl<C> View for Memory<C> {
    type V = Map<MemoryKey, C>;

    closed spec fn view(&self) -> Map<MemoryKey, C> {
        entries_map(self.entries@)
    }
}

impl<C> Memory<C> {
    /// No key is remembered twice.
    #[verifier::type_invariant]
    closed spec fn wf(&self) -> bool {
        unique_keys(self.entries@)
    }
}

impl<C: Copy> Memory<C> {
    /// Creates a memory that remembers nothing.
    pub fn new() -> (memory: Self)
        ensures
            memory@ == Map::<MemoryKey, C>::empty(),
    {
        Memory { entries: Vec::new() }
    }

    /// Records active payloads after edits/Undo while retaining the last
    /// inactive choices.
    ///
    /// `processes` lists, in slot order, the kind and payload of each random
    /// process of the effective definition of `target`.
    pub fn observe(&mut self, target: InspectorTarget, processes: &[(RandomCharacterKind, C)])
        ensures
            final(self)@ == observed(old(self)@, target, processes@),
    {
        proof {
            use_type_invariant(&*self);
        }
        let ghost m0 = self@;
        let n = processes.len();
        let mut entries: Vec<Entry<C>> = Vec::new();
        std::mem::swap(&mut entries, &mut self.entries);
        retain_where(&mut entries, Retain::InScope { target, len: n });
        proof {
            assert(entries_map(entries@) =~= observed_through(m0, target, processes@, 0));
        }
        let mut slot: usize = 0;
        while slot < n
            invariant
                n == processes@.len(),
                0 <= slot <= n,
                unique_keys(entries@),
                entries_map(entries@) == observed_through(m0, target, processes@, slot as nat),
            decreases n - slot,
        {
            let (kind, character) = processes[slot];
            let ghost before = entries_map(entries@);
            retain_where(
                &mut entries,
                Retain::AllBut { target, slot, kind },
            );
            let ghost removed = entries_map(entries@);
            assert(removed == before.remove((target, slot, kind))) by {
                assert(removed =~= before.remove((target, slot, kind)));
            }
            if kind != RandomCharacterKind::RawUniform {
                let e = Entry { target, slot, kind, character };
                proof {
                    lemma_entries_map(entries@);
                    lemma_entries_map_push(entries@, e);
                    assert(!removed.contains_key(key_of(e)));
                    assert forall|a: int, b: int|
                        0 <= a < b < entries@.push(e).len() implies key_of(
                        entries@.push(e)[a],
                    ) != key_of(entries@.push(e)[b]) by {
                        assert(entries@.push(e)[a] == entries@[a]);
                        if b < entries@.len() {
                            assert(entries@.push(e)[b] == entries@[b]);
                        } else {
                            assert(entries_map(entries@).contains_key(
                                key_of(entries@[a]),
                            ));
                        }
                    }
                }
                entries.push(e);
                proof {
                    assert(entries_map(entries@) =~= observed_through(m0, target, processes@, (slot + 1) as nat));
                }
            } else {
                proof {
                    assert(entries_map(entries@) =~= observed_through(m0, target, processes@, (slot + 1) as nat));
                }
            }
            slot = slot + 1;
        }
        self.entries = entries;
    }

    /// Discards prior family/recipe intent only for the replaced scope; a
    /// whole-document replacement resets all uses.
    pub fn clear_target(&mut self, target: InspectorTarget)
        ensures
            final(self)@ == cleared(old(self)@, target),
    {
        proof {
            use_type_invariant(&*self);
        }
        let ghost m0 = self@;
        let mut entries: Vec<Entry<C>> = Vec::new();
        std::mem::swap(&mut entries, &mut self.entries);
        retain_where(&mut entries, Retain::Cleared { target });
        proof {
            assert(entries_map(entries@) =~= cleared(m0, target));
        }
        self.entries = entries;
    }

    /// Returns the remembered payload for one scope, slot and kind.
    pub fn remembered(
        &self,
        target: InspectorTarget,
        slot: usize,
        kind: RandomCharacterKind,
    ) -> (found: Option<C>)
        ensures
            found == (if self@.contains_key((target, slot, kind)) {
                Some(self@[(target, slot, kind)])
            } else {
                None
            }),
    {
        proof {
            use_type_invariant(self);
        }
        proof {
            lemma_entries_map(self.entries@);
        }
        let mut i: usize = 0;
        while i < self.entries.len()
            invariant
                self.wf(),
                0 <= i <= self.entries@.len(),
                forall|j: int|
                    0 <= j < i ==> key_of(#[trigger] self.entries@[j]) != (target, slot, kind),
            decreases self.entries@.len() - i,
        {
            let e = self.entries[i];
            if e.target == target && e.slot == slot && e.kind == kind {
                assert(key_of(self.entries@[i as int]) == (target, slot, kind));
                proof {
                    lemma_entries_map(self.entries@);
                }
                assert(entries_map(self.entries@)[key_of(self.entries@[i as int])]
                    == self.entries@[i as int].character);
                assert(self@.contains_key(key_of(self.entries@[i as int])));
                return Some(e.character);
            }
            i = i + 1;
        }
        None
    }

    /// Observes `target`'s active processes and, for a change of one random
    /// process to the kind `choice`, returns that slot's remembered payload of
    /// that kind.
    ///
    /// `processes` lists, in slot order, the mechanism ID, kind and payload of
    /// each random process of the effective definition of `target`;
    /// `request` names the mechanism whose character changes and the new
    /// kind, or is `None` for any other transition.
    pub fn transition(
        &mut self,
        target: InspectorTarget,
        processes: &[(u64, RandomCharacterKind, C)],
        request: Option<(u64, RandomCharacterKind)>,
    ) -> (restored: Option<C>)
        ensures
            final(self)@ == observed(old(self)@, target, active_choices(processes@)),
            restored == match request {
                Some((mechanism, choice)) => match slot_of(processes@, mechanism) {
                    Some(slot) => if final(self)@.contains_key((target, slot as usize, choice)) {
                        Some(final(self)@[(target, slot as usize, choice)])
                    } else {
                        None
                    },
                    None => None,
                },
                None => None,
            },
    {
        proof {
            use_type_invariant(&*self);
        }
        let mut active: Vec<(RandomCharacterKind, C)> = Vec::new();
        let mut i: usize = 0;
        while i < processes.len()
            invariant
                0 <= i <= processes@.len(),
                active@ == active_choices(processes@.take(i as int)),
            decreases processes@.len() - i,
        {
            let (_, kind, character) = processes[i];
            active.push((kind, character));
            proof {
                assert(active_choices(processes@.take(i + 1)) =~= active_choices(
                    processes@.take(i as int),
                ).push((kind, character)));
            }
            i = i + 1;
        }
        proof {
            assert(processes@.take(processes@.len() as int) =~= processes@);
        }
        self.observe(target, active.as_slice());
        let (mechanism, choice) = match request {
            Some(r) => r,
            None => return None,
        };
        let mut slot: usize = 0;
        while slot < processes.len()
            invariant
                self@ == observed(old(self)@, target, active_choices(processes@)),
                request == Some((mechanism, choice)),
                0 <= slot <= processes@.len(),
                forall|j: int| 0 <= j < slot ==> (#[trigger] processes@[j]).0 != mechanism,
            decreases processes@.len() - slot,
        {
            if processes[slot].0 == mechanism {
                proof {
                    lemma_slot_of_first(processes@, mechanism, slot as int);
                }
                return self.remembered(target, slot, choice);
            }
            slot = slot + 1;
        }
        proof {
            lemma_slot_of_none(processes@, mechanism);
        }
        None
    }

    /// Reports whether nothing is remembered.
    pub fn is_empty(&self) -> (empty: bool)
        ensures
            empty == (self@ == Map::<MemoryKey, C>::empty()),
    {
        proof {
            use_type_invariant(self);
        }
        proof {
            lemma_entries_map(self.entries@);
        }
        if self.entries.len() == 0 {
            assert(self@ =~= Map::<MemoryKey, C>::empty());
            true
        } else {
            assert(self@.contains_key(key_of(self.entries@[0])));
            false
        }
    }
}

/// The kind and payload of each active process, in slot order.
pub open spec fn active_choices<C>(processes: Seq<(u64, RandomCharacterKind, C)>) -> Seq<
    (RandomCharacterKind, C),
> {
    processes.map_values(|p: (u64, RandomCharacterKind, C)| (p.1, p.2))
}

/// `slot` is the first process of `mechanism`.
pub open spec fn first_slot_of<C>(
    processes: Seq<(u64, RandomCharacterKind, C)>,
    mechanism: u64,
    slot: int,
) -> bool {
    &&& 0 <= slot < processes.len()
    &&& processes[slot].0 == mechanism
    &&& forall|j: int| 0 <= j < slot ==> (#[trigger] processes[j]).0 != mechanism
}

/// The slot of the first process of `mechanism`, if any.
pub open spec fn slot_of<C>(processes: Seq<(u64, RandomCharacterKind, C)>, mechanism: u64) -> Option<
    int,
> {
    if exists|slot: int| first_slot_of(processes, mechanism, slot) {
        Some(choose|slot: int| first_slot_of(processes, mechanism, slot))
    } else {
        None
    }
}

proof fn lemma_slot_of_first<C>(
    processes: Seq<(u64, RandomCharacterKind, C)>,
    mechanism: u64,
    slot: int,
)
    requires
        first_slot_of(processes, mechanism, slot),
    ensures
        slot_of(processes, mechanism) == Some(slot),
{
    let k = choose|k: int| first_slot_of(processes, mechanism, k);
    assert(first_slot_of(processes, mechanism, k));
    if k < slot {
        assert(processes[k].0 != mechanism);
    } else if k > slot {
        assert(processes[slot].0 != mechanism);
    }
}

proof fn lemma_slot_of_none<C>(processes: Seq<(u64, RandomCharacterKind, C)>, mechanism: u64)
    requires
        forall|j: int| 0 <= j < processes.len() ==> (#[trigger] processes[j]).0 != mechanism,
    ensures
        slot_of(processes, mechanism) is None,
{
    if exists|slot: int| first_slot_of(processes, mechanism, slot) {
        let k = choose|k: int| first_slot_of(processes, mechanism, k);
        assert(processes[k].0 == mechanism);
    }
}

/// A scalar of a random-site character that a transition restores.
#[derive(Clone, Copy, Debug, PartialEq, Eq, Structural)]
pub enum ScatterParameter {
    MinimumCenterDistance,
    ClusterDensity,
    ClusterSpread,
    ClusterStrength,
}

/// The remembered scalar of a `kind` payload that fills `field`, if any.
pub open spec fn restored_parameter(kind: RandomCharacterKind, field: PropertyFieldId) -> Option<
    ScatterParameter,
> {
    match (kind, field) {
        (RandomCharacterKind::Even, PropertyFieldId::RandomEvenMinimumCenterDistance) => Some(
            ScatterParameter::MinimumCenterDistance,
        ),
        (RandomCharacterKind::Clustered, PropertyFieldId::RandomClusterDensity) => Some(
            ScatterParameter::ClusterDensity,
        ),
        (RandomCharacterKind::Clustered, PropertyFieldId::RandomClusterSpread) => Some(
            ScatterParameter::ClusterSpread,
        ),
        (RandomCharacterKind::Clustered, PropertyFieldId::RandomClusterStrength) => Some(
            ScatterParameter::ClusterStrength,
        ),
        _ => None,
    }
}

/// The positions of `fields` that a remembered `kind` payload fills, in
/// order, each with the scalar it receives.
pub open spec fn restoration(kind: RandomCharacterKind, fields: Seq<PropertyFieldId>) -> Seq<
    (usize, ScatterParameter),
>
    decreases fields.len(),
{
    if fields.len() == 0 {
        Seq::empty()
    } else {
        let earlier = restoration(kind, fields.drop_last());
        match restored_parameter(kind, fields.last()) {
            Some(parameter) => earlier.push(((fields.len() - 1) as usize, parameter)),
            None => earlier,
        }
    }
}

/// Lists which fields of a freshly allocated transition receive which
/// scalar of a remembered `kind` payload; every other field keeps the
/// transition's default.
pub fn restoration_plan(kind: RandomCharacterKind, fields: &[PropertyFieldId]) -> (plan: Vec<
    (usize, ScatterParameter),
>)
    ensures
        plan@ == restoration(kind, fields@),
{
    let mut plan: Vec<(usize, ScatterParameter)> = Vec::new();
    let mut i: usize = 0;
    while i < fields.len()
        invariant
            0 <= i <= fields@.len(),
            plan@ == restoration(kind, fields@.take(i as int)),
        decreases fields@.len() - i,
    {
        proof {
            assert(fields@.take(i + 1).drop_last() =~= fields@.take(i as int));
        }
        let parameter = match (kind, fields[i]) {
            (RandomCharacterKind::Even, PropertyFieldId::RandomEvenMinimumCenterDistance) => Some(
                ScatterParameter::MinimumCenterDistance,
            ),
            (RandomCharacterKind::Clustered, PropertyFieldId::RandomClusterDensity) => Some(
                ScatterParameter::ClusterDensity,
            ),
            (RandomCharacterKind::Clustered, PropertyFieldId::RandomClusterSpread) => Some(
                ScatterParameter::ClusterSpread,
            ),
            (RandomCharacterKind::Clustered, PropertyFieldId::RandomClusterStrength) => Some(
                ScatterParameter::ClusterStrength,
            ),
            _ => None,
        };
        if let Some(p) = parameter {
            plan.push((i, p));
        }
        i = i + 1;
    }
    proof {
        assert(fields@.take(fields@.len() as int) =~= fields@);
    }
    plan
}

/// A choice that becomes inactive is remembered: after a slot's active
/// non-uniform choice is switched to another kind, the first choice's payload
/// is still recorded under its kind for that scope and slot.
pub proof fn lemma_inactive_choice_survives_switch<C>(
    m: Map<MemoryKey, C>,
    target: InspectorTarget,
    first: Seq<(RandomCharacterKind, C)>,
    second: Seq<(RandomCharacterKind, C)>,
    slot: usize,
)
    requires
        slot < first.len(),
        slot < second.len(),
        first[slot as int].0 != RandomCharacterKind::RawUniform,
        second[slot as int].0 != first[slot as int].0,
    ensures
        observed(observed(m, target, first), target, second).contains_key(
            (target, slot, first[slot as int].0),
        ),
        observed(observed(m, target, first), target, second)[(target, slot, first[slot as int].0)]
            == first[slot as int].1,
{
}

/// Switching a process back restores what it held: when a slot's
/// non-uniform choice was observed and the slot then switched to another
/// kind, a transition of that slot's mechanism back to the first kind finds
/// the first payload.
pub proof fn lemma_transition_restores_inactive_choice<C>(
    m: Map<MemoryKey, C>,
    target: InspectorTarget,
    first: Seq<(u64, RandomCharacterKind, C)>,
    second: Seq<(u64, RandomCharacterKind, C)>,
    mechanism: u64,
    slot: usize,
)
    requires
        slot_of(second, mechanism) == Some(slot as int),
        slot < first.len(),
        first[slot as int].1 != RandomCharacterKind::RawUniform,
        second[slot as int].1 != first[slot as int].1,
    ensures
        ({
            let after = observed(
                observed(m, target, active_choices(first)),
                target,
                active_choices(second),
            );
            &&& after.contains_key((target, slot, first[slot as int].1))
            &&& after[(target, slot, first[slot as int].1)] == first[slot as int].2
        }),
{
    let k = choose|k: int| first_slot_of(second, mechanism, k);
    assert(first_slot_of(second, mechanism, k));
    assert(active_choices(first)[slot as int] == (first[slot as int].1, first[slot as int].2));
    assert(active_choices(second)[slot as int] == (second[slot as int].1, second[slot as int].2));
    lemma_inactive_choice_survives_switch(
        m,
        target,
        active_choices(first),
        active_choices(second),
        slot,
    );
}

/// Observing one scope leaves every other scope's memory unchanged.
pub proof fn lemma_observe_keeps_other_scopes<C>(
    m: Map<MemoryKey, C>,
    target: InspectorTarget,
    processes: Seq<(RandomCharacterKind, C)>,
    key: MemoryKey,
)
    requires
        key.0 != target,
    ensures
        observed(m, target, processes).contains_key(key) == m.contains_key(key),
        m.contains_key(key) ==> observed(m, target, processes)[key] == m[key],
{
}

/// Observing the same active processes twice remembers the same as once.
pub proof fn lemma_observe_is_idempotent<C>(
    m: Map<MemoryKey, C>,
    target: InspectorTarget,
    processes: Seq<(RandomCharacterKind, C)>,
)
    ensures
        observed(observed(m, target, processes), target, processes) == observed(
            m,
            target,
            processes,
        ),
{
    assert(observed(observed(m, target, processes), target, processes) =~= observed(
        m,
        target,
        processes,
    ));
}

/// Only non-uniform choices are remembered, and only for slots that exist.
pub proof fn lemma_observe_bounds_scope<C>(
    m: Map<MemoryKey, C>,
    target: InspectorTarget,
    processes: Seq<(RandomCharacterKind, C)>,
    key: MemoryKey,
)
    requires
        key.0 == target,
        observed(m, target, processes).contains_key(key),
    ensures
        key.1 < processes.len(),
        key.2 == processes[key.1 as int].0 ==> key.2 != RandomCharacterKind::RawUniform
            && observed(m, target, processes)[key] == processes[key.1 as int].1,
{
}

/// Replacing the whole document forgets every scope; replacing one channel
/// forgets exactly that channel.
pub proof fn lemma_clear_forgets_replaced_scope<C>(
    m: Map<MemoryKey, C>,
    target: InspectorTarget,
    key: MemoryKey,
)
    ensures
        cleared(m, InspectorTarget::DocumentAll) == Map::<MemoryKey, C>::empty(),
        target != InspectorTarget::DocumentAll ==> (cleared(m, target).contains_key(key) <==> (
        m.contains_key(key) && key.0 != target)),
        target != InspectorTarget::DocumentAll && cleared(m, target).contains_key(key) ==> cleared(
            m,
            target,
        )[key] == m[key],
{
}

} // verus!
