//! The builder description derived from a record declaration.

use vstd::prelude::*;
use crate::schema::{classification_of, classify, Classification, FieldSchema, RecordSchema, SchemaError};

verus! {

/// Appended to a record's name to name its builder.
pub const BUILDER_SUFFIX: &'static str = "Builder";

/// How a field is stored and assembled.
#[derive(Clone, Copy, Debug, PartialEq, Eq)]
pub enum FieldKind {
    Required,
    Optional,
    Accumulated,
}

/// The storage that a builder keeps for a field.
#[derive(Clone, Copy, Debug, PartialEq, Eq)]
pub enum StorageKind {
    /// A slot that holds at most one value.
    Slot,
    /// A list of values in insertion order.
    List,
}

/// What a mutator does to its storage.
#[derive(Clone, Copy, Debug, PartialEq, Eq)]
pub enum WriteMode {
    /// The value takes the slot's place.
    Replace,
    /// The value goes to the end of the list.
    Append,
}

/// How assembly reads a field's storage.
#[derive(Clone, Copy, Debug, PartialEq, Eq)]
pub enum ReadMode {
    /// The slot's value; an empty slot fails assembly.
    Take,
    /// The slot's contents, present or absent.
    TakeOptional,
    /// A copy of the list.
    TakeList,
}

/// The builder's plan for one field of the record.
#[derive(Clone, Debug, PartialEq, Eq)]
pub struct FieldPlan {
    /// The record's field, which names the storage too.
    pub name: String,
    /// The type of one stored value.
    pub elem_type: String,
    /// The mutator that writes this field's storage.
    pub mutator: String,
    pub kind: FieldKind,
}

/// The description of a record's builder.
#[derive(Clone, Debug, PartialEq, Eq)]
pub struct BuilderSchema {
    pub record_name: String,
    pub builder_name: String,
    /// One plan per field of the record, in declaration order.
    pub fields: Vec<FieldPlan>,
}

pub open spec fn storage_of(k: FieldKind) -> StorageKind {
    match k {
        FieldKind::Accumulated => StorageKind::List,
        _ => StorageKind::Slot,
    }
}

pub open spec fn write_of(k: FieldKind) -> WriteMode {
    match k {
        FieldKind::Accumulated => WriteMode::Append,
        _ => WriteMode::Replace,
    }
}

pub open spec fn read_of(k: FieldKind) -> ReadMode {
    match k {
        FieldKind::Required => ReadMode::Take,
        FieldKind::Optional => ReadMode::TakeOptional,
        FieldKind::Accumulated => ReadMode::TakeList,
    }
}

/// The plan of a field with the given classification.
pub open spec fn plan_of(f: FieldSchema, c: Classification) -> FieldPlan {
    match c {
        Classification::Required(t) => FieldPlan {
            name: f.name,
            elem_type: t,
            mutator: f.name,
            kind: FieldKind::Required,
        },
        Classification::Optional(t) => FieldPlan {
            name: f.name,
            elem_type: t,
            mutator: f.name,
            kind: FieldKind::Optional,
        },
        Classification::Accumulated(t, acc) => FieldPlan {
            name: f.name,
            elem_type: t,
            mutator: acc,
            kind: FieldKind::Accumulated,
        },
    }
}

/// The first field, at or after `i`, that has no classification.
pub open spec fn first_unclassified(fields: Seq<FieldSchema>, i: int) -> Option<int>
    decreases fields.len() - i,
{
    if i < 0 || i >= fields.len() {
        None
    } else if classification_of(fields[i]) is Err {
        Some(i)
    } else {
        first_unclassified(fields, i + 1)
    }
}

proof fn lemma_first_unclassified_none(fields: Seq<FieldSchema>, k: int)
    requires
        0 <= k,
        forall|j: int| k <= j < fields.len() ==> classification_of(#[trigger] fields[j]) is Ok,
    ensures
        first_unclassified(fields, k) is None,
    decreases fields.len() - k,
{
    if k < fields.len() {
        lemma_first_unclassified_none(fields, k + 1);
    }
}

proof fn lemma_first_unclassified_at(fields: Seq<FieldSchema>, k: int, i: int)
    requires
        0 <= k <= i < fields.len(),
        forall|j: int| k <= j < i ==> classification_of(#[trigger] fields[j]) is Ok,
        classification_of(fields[i]) is Err,
    ensures
        first_unclassified(fields, k) == Some(i),
    decreases i - k,
{
    if k < i {
        lemma_first_unclassified_at(fields, k + 1, i);
    }
}

impl FieldKind {
    pub fn storage(&self) -> (r: StorageKind)
        ensures
            r == storage_of(*self),
    {
        match self {
            FieldKind::Accumulated => StorageKind::List,
            _ => StorageKind::Slot,
        }
    }

    pub fn write_mode(&self) -> (r: WriteMode)
        ensures
            r == write_of(*self),
    {
        match self {
            FieldKind::Accumulated => WriteMode::Append,
            _ => WriteMode::Replace,
        }
    }

    pub fn read_mode(&self) -> (r: ReadMode)
        ensures
            r == read_of(*self),
    {
        match self {
            FieldKind::Required => ReadMode::Take,
            FieldKind::Optional => ReadMode::TakeOptional,
            FieldKind::Accumulated => ReadMode::TakeList,
        }
    }
}

/// The builder's plan for a field with classification `c`.
pub fn plan_field(f: &FieldSchema, c: Classification) -> (p: FieldPlan)
    ensures
        p == plan_of(*f, c),
{
    match c {
        Classification::Required(t) => FieldPlan {
            name: f.name.clone(),
            elem_type: t,
            mutator: f.name.clone(),
            kind: FieldKind::Required,
        },
        Classification::Optional(t) => FieldPlan {
            name: f.name.clone(),
            elem_type: t,
            mutator: f.name.clone(),
            kind: FieldKind::Optional,
        },
        Classification::Accumulated(t, acc) => FieldPlan {
            name: f.name.clone(),
            elem_type: t,
            mutator: acc,
            kind: FieldKind::Accumulated,
        },
    }
}

/// The name of a record's builder: the record's name followed by the suffix.
pub fn builder_name(record: &String) -> (r: String)
    ensures
        r@ == record@ + BUILDER_SUFFIX@,
{
    let mut name = record.clone();
    name.append(BUILDER_SUFFIX);
    name
}

/// Derives the builder description of a record.
///
/// Every field is classified first, in declaration order; the first field that
/// cannot be classified ends the derivation with its error, and no plan is made.
pub fn derive(record: &RecordSchema) -> (r: Result<BuilderSchema, SchemaError>)
    ensures
        match r {
            Ok(b) => {
                &&& first_unclassified(record.fields@, 0) is None
                &&& b.record_name == record.name
                &&& b.builder_name@ == record.name@ + BUILDER_SUFFIX@
                &&& b.fields@ == Seq::new(
                    record.fields@.len(),
                    |i: int| plan_of(record.fields@[i], classification_of(record.fields@[i])->Ok_0),
                )
            },
            Err(e) => {
                &&& first_unclassified(record.fields@, 0) is Some
                &&& e == classification_of(
                    record.fields@[first_unclassified(record.fields@, 0)->Some_0],
                )->Err_0
            },
        },
{
    let n = record.fields.len();
    let mut plans: Vec<FieldPlan> = Vec::new();
    let mut i: usize = 0;
    while i < n
        invariant
            i <= n,
            n == record.fields@.len(),
            forall|j: int| 0 <= j < i ==> classification_of(#[trigger] record.fields@[j]) is Ok,
            plans@ == Seq::new(
                i as nat,
                |j: int| plan_of(record.fields@[j], classification_of(record.fields@[j])->Ok_0),
            ),
        decreases n - i,
    {
        match classify(&record.fields[i]) {
            Ok(c) => {
                let p = plan_field(&record.fields[i], c);
                plans.push(p);
                assert(plans@ =~= Seq::new(
                    (i + 1) as nat,
                    |j: int| plan_of(record.fields@[j], classification_of(record.fields@[j])->Ok_0),
                ));
            },
            Err(e) => {
                proof {
                    lemma_first_unclassified_at(record.fields@, 0, i as int);
                }
                return Err(e);
            },
        }
        i = i + 1;
    }
    proof {
        lemma_first_unclassified_none(record.fields@, 0);
    }
    Ok(BuilderSchema { record_name: record.name.clone(), builder_name: builder_name(&record.name), fields: plans })
}

} // verus!
