//! Builder storage, mutators and record assembly.

use vstd::prelude::*;
use crate::synth::{storage_of, BuilderSchema, FieldKind, FieldPlan, StorageKind};

verus! {

/// A value that a record field holds.
#[derive(Clone, Debug, PartialEq, Eq)]
pub enum Value {
    Bool(bool),
    Int(i64),
    UInt(u64),
    Char(char),
    Text(String),
}

impl Value {
    /// An independent copy of this value.
    pub fn duplicate(&self) -> (r: Value)
        ensures
            r == *self,
    {
        match self {
            Value::Bool(b) => Value::Bool(*b),
            Value::Int(n) => Value::Int(*n),
            Value::UInt(n) => Value::UInt(*n),
            Value::Char(c) => Value::Char(*c),
            Value::Text(s) => Value::Text(s.clone()),
        }
    }
}

/// The storage that a builder keeps for one field.
#[derive(Clone, Debug, PartialEq, Eq)]
pub enum Slot {
    /// At most one value.
    Single(Option<Value>),
    /// Values in the order in which they were added.
    List(Vec<Value>),
}

/// What a slot holds.
pub enum SlotView {
    Single(Option<Value>),
    List(Seq<Value>),
}

impl View for Slot {
    type V = SlotView;

    open spec fn view(&self) -> SlotView {
        match self {
            Slot::Single(o) => SlotView::Single(*o),
            Slot::List(vs) => SlotView::List(vs@),
        }
    }
}

/// One field of an assembled record.
#[derive(Clone, Debug, PartialEq, Eq)]
pub enum FieldValue {
    /// The value of a required field.
    One(Value),
    /// The value of an optional field, if it was set.
    Maybe(Option<Value>),
    /// The values of an accumulated field, in insertion order.
    Many(Vec<Value>),
}

/// What a field of an assembled record holds.
pub enum FieldValueView {
    One(Value),
    Maybe(Option<Value>),
    Many(Seq<Value>),
}

impl View for FieldValue {
    type V = FieldValueView;

    open spec fn view(&self) -> FieldValueView {
        match self {
            FieldValue::One(v) => FieldValueView::One(*v),
            FieldValue::Maybe(o) => FieldValueView::Maybe(*o),
            FieldValue::Many(vs) => FieldValueView::Many(vs@),
        }
    }
}

/// An assembled record: one value per field, in declaration order.
#[derive(Clone, Debug, PartialEq, Eq)]
pub struct Record {
    pub fields: Vec<FieldValue>,
}

impl View for Record {
    type V = Seq<FieldValueView>;

    open spec fn view(&self) -> Seq<FieldValueView> {
        self.fields@.map_values(|f: FieldValue| f@)
    }
}

/// Why a builder could not assemble its record.
#[derive(Clone, Debug, PartialEq, Eq)]
pub enum BuildError {
    /// The named required field was never set.
    MissingField(String),
}

/// The storage of a field that nothing has written yet.
pub open spec fn empty_slot(k: FieldKind) -> SlotView {
    match storage_of(k) {
        StorageKind::Slot => SlotView::Single(None),
        StorageKind::List => SlotView::List(Seq::empty()),
    }
}

/// Whether a slot has the shape that a field of kind `k` is stored in.
pub open spec fn fits(k: FieldKind, s: SlotView) -> bool {
    match storage_of(k) {
        StorageKind::Slot => s is Single,
        StorageKind::List => s is List,
    }
}

/// The initial storage of a builder.
pub open spec fn initial(plans: Seq<FieldPlan>) -> Seq<SlotView> {
    Seq::new(plans.len(), |i: int| empty_slot(plans[i].kind))
}

/// A slot after its mutator was called with `v`: a single value is replaced,
/// a list grows by `v` at its end.
pub open spec fn written(s: SlotView, v: Value) -> SlotView {
    match s {
        SlotView::Single(_) => SlotView::Single(Some(v)),
        SlotView::List(vs) => SlotView::List(vs.push(v)),
    }
}

/// Storage after the mutator of field `c.0` was called with `c.1`.
pub open spec fn step(slots: Seq<SlotView>, c: (int, Value)) -> Seq<SlotView> {
    if 0 <= c.0 < slots.len() {
        slots.update(c.0, written(slots[c.0], c.1))
    } else {
        slots
    }
}

/// Storage after a sequence of mutator calls, each naming a field by its index.
pub open spec fn run(slots: Seq<SlotView>, calls: Seq<(int, Value)>) -> Seq<SlotView>
    decreases calls.len(),
{
    if calls.len() == 0 {
        slots
    } else {
        step(run(slots, calls.drop_last()), calls.last())
    }
}

/// Whether a field stops assembly: it is required and its slot is empty.
pub open spec fn missing(k: FieldKind, s: SlotView) -> bool {
    k == FieldKind::Required && s == SlotView::Single(None)
}

/// The first field, at or after `i`, that stops assembly.
pub open spec fn first_missing(plans: Seq<FieldPlan>, slots: Seq<SlotView>, i: int) -> Option<int>
    decreases plans.len() - i,
{
    if i < 0 || i >= plans.len() {
        None
    } else if missing(plans[i].kind, slots[i]) {
        Some(i)
    } else {
        first_missing(plans, slots, i + 1)
    }
}

/// The value that assembly reads out of a field's storage.
pub open spec fn field_value(k: FieldKind, s: SlotView) -> FieldValueView {
    match s {
        SlotView::Single(o) => match k {
            FieldKind::Required => match o {
                Some(v) => FieldValueView::One(v),
                None => FieldValueView::Maybe(None),
            },
            _ => FieldValueView::Maybe(o),
        },
        SlotView::List(vs) => FieldValueView::Many(vs),
    }
}

/// The outcome of assembly: the first missing required field, in declaration
/// order, or every field's value.
pub open spec fn assembled(plans: Seq<FieldPlan>, slots: Seq<SlotView>) -> Result<
    Seq<FieldValueView>,
    BuildError,
> {
    match first_missing(plans, slots, 0) {
        Some(i) => Err(BuildError::MissingField(plans[i].name)),
        None => Ok(Seq::new(plans.len(), |i: int| field_value(plans[i].kind, slots[i]))),
    }
}

pub(crate) proof fn lemma_first_missing_none(plans: Seq<FieldPlan>, slots: Seq<SlotView>, k: int)
    requires
        0 <= k,
        forall|j: int| k <= j < plans.len() ==> !missing(#[trigger] plans[j].kind, slots[j]),
    ensures
        first_missing(plans, slots, k) is None,
    decreases plans.len() - k,
{
    if k < plans.len() {
        lemma_first_missing_none(plans, slots, k + 1);
    }
}

pub(crate) proof fn lemma_first_missing_at(plans: Seq<FieldPlan>, slots: Seq<SlotView>, k: int, i: int)
    requires
        0 <= k <= i < plans.len(),
        forall|j: int| k <= j < i ==> !missing(#[trigger] plans[j].kind, slots[j]),
        missing(plans[i].kind, slots[i]),
    ensures
        first_missing(plans, slots, k) == Some(i),
    decreases i - k,
{
    if k < i {
        lemma_first_missing_at(plans, slots, k + 1, i);
    }
}

/// An independent copy of a list of values.
pub fn copy_values(vs: &Vec<Value>) -> (r: Vec<Value>)
    ensures
        r@ == vs@,
{
    let mut out: Vec<Value> = Vec::new();
    let mut i: usize = 0;
    while i < vs.len()
        invariant
            i <= vs@.len(),
            out@ == vs@.subrange(0, i as int),
        decreases vs@.len() - i,
    {
        out.push(vs[i].duplicate());
        i = i + 1;
        assert(out@ =~= vs@.subrange(0, i as int));
    }
    assert(out@ =~= vs@);
    out
}

/// An independent copy of an optional value.
pub fn copy_option(o: &Option<Value>) -> (r: Option<Value>)
    ensures
        r == *o,
{
    match o {
        Some(v) => Some(v.duplicate()),
        None => None,
    }
}

/// A builder: a description and the storage that its mutators fill.
pub struct Builder {
    pub schema: BuilderSchema,
    pub slots: Vec<Slot>,
}

impl Builder {
    /// What the builder's storage holds.
    pub open spec fn storage(&self) -> Seq<SlotView> {
        self.slots@.map_values(|s: Slot| s@)
    }

    /// The builder's field plans.
    pub open spec fn plans(&self) -> Seq<FieldPlan> {
        self.schema.fields@
    }

    /// One slot per field, each of the shape that its field is stored in.
    pub open spec fn wf(&self) -> bool {
        &&& self.slots@.len() == self.schema.fields@.len()
        &&& forall|i: int|
            0 <= i < self.slots@.len() ==> fits(self.schema.fields@[i].kind, #[trigger] self.slots@[i]@)
    }

    /// A builder for `schema` whose storage is empty: no slot holds a value and
    /// every list is empty.
    pub fn new(schema: BuilderSchema) -> (r: Builder)
        ensures
            r.wf(),
            r.schema == schema,
            r.storage() == initial(schema.fields@),
    {
        let mut slots: Vec<Slot> = Vec::new();
        let mut i: usize = 0;
        while i < schema.fields.len()
            invariant
                i <= schema.fields@.len(),
                slots@.len() == i,
                forall|j: int| 0 <= j < i ==> #[trigger] slots@[j]@ == empty_slot(schema.fields@[j].kind),
            decreases schema.fields@.len() - i,
        {
            let slot = match schema.fields[i].kind.storage() {
                StorageKind::Slot => Slot::Single(None),
                StorageKind::List => Slot::List(Vec::new()),
            };
            slots.push(slot);
            i = i + 1;
        }
        let r = Builder { schema, slots };
        assert(r.storage() =~= initial(r.schema.fields@));
        r
    }

    /// Calls the mutator of field `i` with `v`: a single slot takes `v` in place of
    /// what it held, a list gets `v` at its end. No other field changes.
    pub fn apply(&mut self, i: usize, v: Value)
        requires
            old(self).wf(),
            i < old(self).slots@.len(),
        ensures
            final(self).wf(),
            final(self).schema == old(self).schema,
            final(self).storage() == step(old(self).storage(), (i as int, v)),
    {
        let mut slot = Slot::Single(None);
        self.slots.set_and_swap(i, &mut slot);
        let updated = match slot {
            Slot::Single(_) => Slot::Single(Some(v)),
            Slot::List(mut vs) => {
                vs.push(v);
                Slot::List(vs)
            },
        };
        self.slots.set(i, updated);
        assert(self.storage() =~= step(old(self).storage(), (i as int, v)));
    }

    /// The field whose mutator is called `name`: the first one, in declaration
    /// order, if several share the name.
    pub fn mutator_index(&self, name: &str) -> (r: Option<usize>)
        ensures
            match r {
                Some(i) => {
                    &&& i < self.schema.fields@.len()
                    &&& self.schema.fields@[i as int].mutator@ == name@
                    &&& forall|j: int| 0 <= j < i ==> #[trigger] self.schema.fields@[j].mutator@ != name@
                },
                None => forall|j: int|
                    0 <= j < self.schema.fields@.len() ==> #[trigger] self.schema.fields@[j].mutator@
                        != name@,
            },
    {
        let wanted = String::from_str(name);
        let mut i: usize = 0;
        while i < self.schema.fields.len()
            invariant
                i <= self.schema.fields@.len(),
                wanted@ == name@,
                forall|j: int| 0 <= j < i ==> #[trigger] self.schema.fields@[j].mutator@ != name@,
            decreases self.schema.fields@.len() - i,
        {
            if self.schema.fields[i].mutator == wanted {
                return Some(i);
            }
            i = i + 1;
        }
        None
    }

    /// Calls the mutator named `name` with `v`, as [`Builder::apply`] does for its
    /// field. Returns false, and leaves the builder as it was, when no mutator has
    /// that name.
    pub fn apply_named(&mut self, name: &str, v: Value) -> (r: bool)
        requires
            old(self).wf(),
        ensures
            final(self).wf(),
            final(self).schema == old(self).schema,
            r == exists|j: int|
                0 <= j < old(self).schema.fields@.len() && #[trigger] old(self).schema.fields@[j].mutator@
                    == name@,
            r ==> exists|i: int|
                0 <= i < old(self).schema.fields@.len() && old(self).schema.fields@[i].mutator@
                    == name@ && (forall|j: int|
                    0 <= j < i ==> #[trigger] old(self).schema.fields@[j].mutator@ != name@)
                    && final(self).storage() == step(old(self).storage(), (i, v)),
            !r ==> final(self).storage() == old(self).storage(),
    {
        match self.mutator_index(name) {
            Some(i) => {
                self.apply(i, v);
                true
            },
            None => false,
        }
    }

    /// Assembles a record from the current storage, which stays as it was.
    ///
    /// Fields are read in declaration order; the first required field whose slot
    /// is empty ends assembly with its name.
    pub fn build(&self) -> (r: Result<Record, BuildError>)
        requires
            self.wf(),
        ensures
            match r {
                Ok(rec) => assembled(self.plans(), self.storage()) == Ok::<
                    Seq<FieldValueView>,
                    BuildError,
                >(rec@),
                Err(e) => assembled(self.plans(), self.storage()) == Err::<
                    Seq<FieldValueView>,
                    BuildError,
                >(e),
            },
    {
        let n = self.slots.len();
        let mut out: Vec<FieldValue> = Vec::new();
        let mut i: usize = 0;
        while i < n
            invariant
                self.wf(),
                i <= n,
                n == self.slots@.len(),
                forall|j: int| 0 <= j < i ==> !missing(#[trigger] self.plans()[j].kind, self.storage()[j]),
                out@.map_values(|f: FieldValue| f@) == Seq::new(
                    i as nat,
                    |j: int| field_value(self.plans()[j].kind, self.storage()[j]),
                ),
            decreases n - i,
        {
            let plan = &self.schema.fields[i];
            let value = match &self.slots[i] {
                Slot::Single(o) => match plan.kind {
                    FieldKind::Required => match o {
                        Some(v) => FieldValue::One(v.duplicate()),
                        None => {
                            proof {
                                lemma_first_missing_at(self.plans(), self.storage(), 0, i as int);
                            }
                            return Err(BuildError::MissingField(plan.name.clone()));
                        },
                    },
                    _ => FieldValue::Maybe(copy_option(o)),
                },
                Slot::List(vs) => FieldValue::Many(copy_values(vs)),
            };
            assert(self.storage()[i as int] == self.slots@[i as int]@);
            assert(value@ == field_value(self.plans()[i as int].kind, self.storage()[i as int]));
            assert(!missing(self.plans()[i as int].kind, self.storage()[i as int]));
            let ghost prev = out@;
            out.push(value);
            assert(out@.map_values(|f: FieldValue| f@) =~= prev.map_values(|f: FieldValue| f@).push(
                value@,
            ));
            i = i + 1;
            assert(out@.map_values(|f: FieldValue| f@) =~= Seq::new(
                i as nat,
                |j: int| field_value(self.plans()[j].kind, self.storage()[j]),
            ));
        }
        proof {
            lemma_first_missing_none(self.plans(), self.storage(), 0);
        }
        let rec = Record { fields: out };
        assert(rec@ =~= Seq::new(n as nat, |j: int| field_value(self.plans()[j].kind, self.storage()[j])));
        Ok(rec)
    }
}

} // verus!
