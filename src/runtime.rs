//! What a synthesized builder does when it runs: one slot per field, each
//! `Present` or `Empty`; setters fill a slot; `build` checks the mandatory slots
//! in declaration order and, when all are filled, moves every slot's value into
//! the new record, leaving the slots empty.
use vstd::prelude::*;
use crate::classify::FieldDescriptor;

verus! {

/// The value a built record holds for one field.
#[derive(PartialEq, Eq, Debug, Clone)]
pub enum FieldValue<V> {
    /// A mandatory field's value.
    Required(V),
    /// An optional field: the wrapper holding the value, or the wrapper's empty value.
    Optional(Option<V>),
}

/// `build` found the mandatory field at `index`, named `field`, unset.
pub struct MissingField {
    pub index: usize,
    pub field: String,
}

pub open spec fn missing_suffix() -> Seq<char> {
    seq![' ', 'h', 'a', 's', ' ', 'n', 'o', ' ', 'v', 'a', 'l', 'u', 'e', '.']
}

impl MissingField {
    /// The error's text: `<field> has no value.`
    pub fn message(&self) -> (r: String)
        ensures
            r@ == self.field@ + missing_suffix(),
    {
        proof {
            reveal_strlit(" has no value.");
        }
        self.field.clone().concat(" has no value.")
    }
}

/// A builder instance: the record's fields and one slot for each.
pub struct RecordBuilder<V> {
    pub fields: Vec<FieldDescriptor>,
    pub slots: Vec<Option<V>>,
}

/// Slot `i` belongs to a mandatory field and is empty.
pub open spec fn missing<V>(fields: Seq<FieldDescriptor>, slots: Seq<Option<V>>, i: int) -> bool {
    !fields[i].optional() && slots[i] is None
}

/// Slot `i` is the first missing one, in declaration order.
pub open spec fn first_missing<V>(fields: Seq<FieldDescriptor>, slots: Seq<Option<V>>, i: int) -> bool {
    &&& 0 <= i < fields.len()
    &&& missing(fields, slots, i)
    &&& forall|j: int| 0 <= j < i ==> !missing(fields, slots, j)
}

/// Every mandatory slot is filled.
pub open spec fn complete<V>(fields: Seq<FieldDescriptor>, slots: Seq<Option<V>>) -> bool {
    forall|i: int| 0 <= i < fields.len() ==> !missing(fields, slots, i)
}

/// Field `i` is the first mandatory field in declaration order.
pub open spec fn first_mandatory(fields: Seq<FieldDescriptor>, i: int) -> bool {
    &&& 0 <= i < fields.len()
    &&& !fields[i].optional()
    &&& forall|j: int| 0 <= j < i ==> fields[j].optional()
}

/// What the record holds for field `f` whose slot held `s`.
pub open spec fn value_of<V>(f: FieldDescriptor, s: Option<V>) -> FieldValue<V> {
    if f.optional() {
        FieldValue::Optional(s)
    } else {
        FieldValue::Required(s->0)
    }
}

/// `n` empty slots.
pub open spec fn empty_slots<V>(n: nat) -> Seq<Option<V>> {
    Seq::new(n, |i: int| None)
}

/// The slots after a setter stored `v` in slot `i`.
pub open spec fn set_slot<V>(slots: Seq<Option<V>>, i: int, v: V) -> Seq<Option<V>> {
    slots.update(i, Some(v))
}

/// The record that `build` returns from filled slots.
pub open spec fn record_of<V>(fields: Seq<FieldDescriptor>, slots: Seq<Option<V>>) -> Seq<FieldValue<V>> {
    Seq::new(fields.len(), |i: int| value_of(fields[i], slots[i]))
}

impl<V> RecordBuilder<V> {
    pub open spec fn wf(&self) -> bool {
        self.slots@.len() == self.fields@.len()
    }

    /// A builder for the given fields with every slot empty.
    pub fn new(fields: Vec<FieldDescriptor>) -> (r: Self)
        ensures
            r.wf(),
            r.fields == fields,
            r.slots@ == empty_slots::<V>(fields@.len()),
    {
        let mut slots: Vec<Option<V>> = Vec::new();
        let mut i: usize = 0;
        while i < fields.len()
            invariant
                i <= fields@.len(),
                slots@ == empty_slots::<V>(i as nat),
            decreases fields@.len() - i,
        {
            slots.push(None);
            i = i + 1;
            assert(slots@ =~= empty_slots::<V>(i as nat));
        }
        RecordBuilder { fields, slots }
    }

    /// Stores `value` in slot `index`, replacing what it held.
    pub fn set(&mut self, index: usize, value: V)
        requires
            old(self).wf(),
            index < old(self).fields@.len(),
        ensures
            final(self).wf(),
            final(self).fields == old(self).fields,
            final(self).slots@ == set_slot(old(self).slots@, index as int, value),
    {
        self.slots.set(index, Some(value));
    }

    /// The position of the first field named `name`.
    pub fn index_of(&self, name: &String) -> (r: Option<usize>)
        ensures
            match r {
                Some(i) => i < self.fields@.len() && self.fields@[i as int].name@ == name@
                    && forall|j: int| 0 <= j < i ==> self.fields@[j].name@ != name@,
                None => forall|j: int| 0 <= j < self.fields@.len() ==> self.fields@[j].name@ != name@,
            },
    {
        let mut i: usize = 0;
        while i < self.fields.len()
            invariant
                i <= self.fields@.len(),
                forall|j: int| 0 <= j < i ==> self.fields@[j].name@ != name@,
            decreases self.fields@.len() - i,
        {
            if self.fields[i].name == *name {
                return Some(i);
            }
            i = i + 1;
        }
        None
    }

    /// The first mandatory field whose slot is empty, if any.
    pub fn find_missing(&self) -> (r: Option<usize>)
        requires
            self.wf(),
        ensures
            match r {
                Some(i) => first_missing(self.fields@, self.slots@, i as int),
                None => complete(self.fields@, self.slots@),
            },
    {
        let mut i: usize = 0;
        while i < self.fields.len()
            invariant
                self.wf(),
                i <= self.fields@.len(),
                forall|j: int| 0 <= j < i ==> !missing(self.fields@, self.slots@, j),
            decreases self.fields@.len() - i,
        {
            if !self.fields[i].is_optional() && self.slots[i].is_none() {
                return Some(i);
            }
            i = i + 1;
        }
        None
    }

    /// Builds the record. Fails, changing nothing, naming the first mandatory
    /// field in declaration order whose slot is empty. Otherwise moves every
    /// slot's value into the record and leaves all slots empty.
    pub fn build(&mut self) -> (r: Result<Vec<FieldValue<V>>, MissingField>)
        requires
            old(self).wf(),
        ensures
            final(self).wf(),
            final(self).fields == old(self).fields,
            r is Ok <==> complete(old(self).fields@, old(self).slots@),
            match r {
                Ok(values) => {
                    &&& values@ == record_of(old(self).fields@, old(self).slots@)
                    &&& final(self).slots@ == empty_slots::<V>(old(self).fields@.len())
                },
                Err(e) => {
                    &&& first_missing(old(self).fields@, old(self).slots@, e.index as int)
                    &&& e.field@ == old(self).fields@[e.index as int].name@
                    &&& final(self).slots@ == old(self).slots@
                },
            },
    {
        if let Some(index) = self.find_missing() {
            return Err(MissingField { index, field: self.fields[index].name.clone() });
        }
        let ghost old_slots = self.slots@;
        let mut values: Vec<FieldValue<V>> = Vec::new();
        let mut i: usize = 0;
        while i < self.fields.len()
            invariant
                self.wf(),
                self.fields == old(self).fields,
                old_slots == old(self).slots@,
                complete(self.fields@, old_slots),
                i <= self.fields@.len(),
                values@.len() == i,
                forall|j: int| 0 <= j < i ==> #[trigger] values@[j] == value_of(self.fields@[j], old_slots[j]),
                forall|j: int| 0 <= j < i ==> #[trigger] self.slots@[j] is None,
                forall|j: int| i <= j < self.fields@.len() ==> #[trigger] self.slots@[j] == old_slots[j],
            decreases self.fields@.len() - i,
        {
            let mut slot: Option<V> = None;
            std::mem::swap(&mut slot, &mut self.slots[i]);
            assert(!missing(self.fields@, old_slots, i as int));
            if self.fields[i].is_optional() {
                values.push(FieldValue::Optional(slot));
            } else {
                match slot {
                    Some(v) => values.push(FieldValue::Required(v)),
                    None => {
                        assert(false);
                    },
                }
            }
            i = i + 1;
        }
        assert(values@ =~= record_of(self.fields@, old_slots));
        assert(self.slots@ =~= empty_slots::<V>(self.fields@.len()));
        Ok(values)
    }
}

/// On a fresh builder, whose slots are all empty, `build` fails and names the
/// first mandatory field in declaration order.
pub proof fn lemma_fresh_build_names_first_mandatory<V>(fields: Seq<FieldDescriptor>, k: int)
    requires
        first_mandatory(fields, k),
    ensures
        !complete(fields, empty_slots::<V>(fields.len())),
        first_missing(fields, empty_slots::<V>(fields.len()), k),
{
    assert(missing(fields, empty_slots::<V>(fields.len()), k));
}

/// With every mandatory slot filled and every optional slot empty, `build`
/// succeeds and each optional field of the record holds the wrapper's empty value.
pub proof fn lemma_mandatory_only_builds<V>(fields: Seq<FieldDescriptor>, slots: Seq<Option<V>>)
    requires
        slots.len() == fields.len(),
        forall|i: int| 0 <= i < fields.len() ==> (#[trigger] slots[i] is Some <==> !fields[i].optional()),
    ensures
        complete(fields, slots),
        forall|i: int|
            0 <= i < fields.len() && #[trigger] fields[i].optional() ==> record_of(fields, slots)[i]
                == FieldValue::<V>::Optional(None),
{
}

/// With every slot filled, a first `build` succeeds; it leaves every slot empty,
/// so a second `build` fails and names the first mandatory field.
pub proof fn lemma_build_drains<V>(fields: Seq<FieldDescriptor>, slots: Seq<Option<V>>, k: int)
    requires
        slots.len() == fields.len(),
        forall|i: int| 0 <= i < fields.len() ==> #[trigger] slots[i] is Some,
        first_mandatory(fields, k),
    ensures
        complete(fields, slots),
        !complete(fields, empty_slots::<V>(fields.len())),
        first_missing(fields, empty_slots::<V>(fields.len()), k),
{
    lemma_fresh_build_names_first_mandatory::<V>(fields, k);
}

/// Setting a slot twice leaves the later value, and that is what `build` returns
/// for the field.
pub proof fn lemma_last_set_wins<V>(fields: Seq<FieldDescriptor>, slots: Seq<Option<V>>, i: int, a: V, b: V)
    requires
        slots.len() == fields.len(),
        0 <= i < fields.len(),
    ensures
        set_slot(set_slot(slots, i, a), i, b) == set_slot(slots, i, b),
        record_of(fields, set_slot(set_slot(slots, i, a), i, b))[i] == (if fields[i].optional() {
            FieldValue::Optional(Some(b))
        } else {
            FieldValue::Required(b)
        }),
{
    assert(set_slot(set_slot(slots, i, a), i, b) =~= set_slot(slots, i, b));
}

} // verus!
