//! Benchmark driver decisions: which record to generate, which statements to
//! issue, and which update each scenario iteration performs.
//!
//! The store itself is an external collaborator; a thin shell connects to
//! it, issues the statements this module produces, and sends one update per
//! planned request, aborting on the first failure.

use crate::ident::is_identifier_for;
use crate::ident::lemma_identifier_parts;
use crate::ident::parse_id_into_resource;
use crate::records::large_statements;
use crate::records::medium_statements;
use crate::records::small_statements;
use crate::records::Large;
use crate::records::Medium;
use crate::records::Small;
use vstd::prelude::*;

verus! {

/// The three record shapes a scenario can exercise.
#[derive(Clone, Copy, PartialEq, Eq, Structural)]
pub enum Kind {
    Small,
    Medium,
    Large,
}

/// The table a record of the given kind is stored under.
pub open spec fn table_name(kind: Kind) -> Seq<char> {
    match kind {
        Kind::Small => "small"@,
        Kind::Medium => "medium"@,
        Kind::Large => "large"@,
    }
}

/// A generated record of one of the three kinds.
pub enum Record {
    Small(Small),
    Medium(Medium),
    Large(Large),
}

/// Failure of a record-model operation.
#[derive(Clone, Copy, PartialEq, Eq, Structural, Debug)]
pub enum RecordError {
    /// The record was never assigned an identifier.
    MissingIdentifier,
}

impl Record {
    /// The kind of this record.
    pub open spec fn kind(self) -> Kind {
        match self {
            Record::Small(_) => Kind::Small,
            Record::Medium(_) => Kind::Medium,
            Record::Large(_) => Kind::Large,
        }
    }

    /// The identifier assigned to this record, if any.
    pub open spec fn id_of(self) -> Option<String> {
        match self {
            Record::Small(r) => r.id,
            Record::Medium(r) => r.id,
            Record::Large(r) => r.id,
        }
    }

    /// The record is well formed for its kind.
    pub open spec fn wf(self) -> bool {
        match self {
            Record::Small(r) => r.wf(),
            Record::Medium(r) => r.wf(),
            Record::Large(r) => r.wf(),
        }
    }

    /// Every optional field of the record carries a value.
    pub open spec fn options_populated(self) -> bool {
        match self {
            Record::Small(_) => true,
            Record::Medium(r) => r.options_populated(),
            Record::Large(r) => r.options_populated(),
        }
    }
}

/// Generates a fresh, fully populated record of the requested kind with a
/// new unique identifier and independently randomized field values.
pub fn generate_random(kind: Kind) -> (r: Record)
    ensures
        r.wf(),
        r.kind() == kind,
        r.id_of() is Some,
        r.options_populated(),
{
    match kind {
        Kind::Small => Record::Small(Small::generate()),
        Kind::Medium => Record::Medium(Medium::generate()),
        Kind::Large => Record::Large(Large::generate()),
    }
}

/// Extracts the `<table>:<key>` identifier of a generated record, the update
/// target of a benchmark iteration. Fails exactly on a record that was never
/// assigned an identifier.
pub fn identifier_of(r: &Record) -> (res: Result<String, RecordError>)
    ensures
        res is Ok <==> r.id_of() is Some,
        res matches Ok(s) ==> r.id_of() matches Some(i) && s@ == i@,
        res matches Err(e) ==> e == RecordError::MissingIdentifier,
{
    let id = match r {
        Record::Small(rec) => &rec.id,
        Record::Medium(rec) => &rec.id,
        Record::Large(rec) => &rec.id,
    };
    match id {
        Some(s) => Ok(String::from_str(s.as_str())),
        None => Err(RecordError::MissingIdentifier),
    }
}

/// The fixed, ordered schema-definition statements for the given kind.
pub open spec fn definition_statements_spec(kind: Kind) -> Seq<Seq<char>> {
    match kind {
        Kind::Small => small_statements(),
        Kind::Medium => medium_statements(),
        Kind::Large => large_statements(),
    }
}

/// Returns the static ordered schema-definition statements for `kind`: one
/// schema-enforcing table declaration followed by one typed declaration per
/// field.
pub fn definition_statements(kind: Kind) -> (r: Vec<&'static str>)
    ensures
        r.deep_view() == definition_statements_spec(kind),
{
    match kind {
        Kind::Small => Small::define_statements(),
        Kind::Medium => Medium::define_statements(),
        Kind::Large => Large::define_statements(),
    }
}

/// The schema-definition statements of the given kinds, concatenated in
/// order.
pub open spec fn schema_statements_spec(kinds: Seq<Kind>) -> Seq<Seq<char>>
    decreases kinds.len(),
{
    if kinds.len() == 0 {
        Seq::empty()
    } else {
        schema_statements_spec(kinds.drop_last()) + definition_statements_spec(kinds.last())
    }
}

/// Returns every schema-definition statement of the requested kinds, in
/// order: the statements of the first kind, then of the next, and so on. The
/// shell issues them in sequence and aborts on the first rejection.
pub fn declare_schemas(kinds: &Vec<Kind>) -> (r: Vec<&'static str>)
    ensures
        r.deep_view() == schema_statements_spec(kinds@),
{
    let mut r: Vec<&'static str> = Vec::new();
    proof {
        assert(r.deep_view() =~= schema_statements_spec(kinds@.subrange(0, 0)));
    }
    for k in 0..kinds.len()
        invariant
            r.deep_view() == schema_statements_spec(kinds@.subrange(0, k as int)),
    {
        let mut stmts = definition_statements(kinds[k]);
        r.append(&mut stmts);
        proof {
            assert(kinds@.subrange(0, k + 1 as int).drop_last() =~= kinds@.subrange(0, k as int));
            assert(kinds@.subrange(0, k + 1 as int).last() == kinds@[k as int]);
            assert(r.deep_view() =~= schema_statements_spec(kinds@.subrange(0, k + 1 as int)));
        }
    }
    proof {
        assert(kinds@.subrange(0, kinds@.len() as int) =~= kinds@);
    }
    r
}

/// The statement that clears the three benchmark tables before a run.
/// Removing a table that does not exist is the store's no-op, so issuing it
/// repeatedly is safe.
pub fn clear_statement() -> (s: &'static str)
    ensures
        s@ == "REMOVE TABLE small; REMOVE TABLE medium; REMOVE TABLE large;"@,
{
    "REMOVE TABLE small; REMOVE TABLE medium; REMOVE TABLE large;"
}

/// One planned benchmark iteration: an upsert of `record` addressed by table
/// and key.
pub struct UpdateRequest {
    pub table: String,
    pub key: String,
    pub record: Record,
}

impl UpdateRequest {
    /// The request is well formed: the record is well formed, and the
    /// request is addressed by the record's own identifier, split into its
    /// table and key.
    pub open spec fn wf(self) -> bool {
        &&& self.record.wf()
        &&& self.record.id_of() matches Some(i) && i@ == self.table@ + seq![':'] + self.key@
        &&& self.table@ == table_name(self.record.kind())
    }
}

/// Plans one benchmark iteration: generates a fresh record of `kind` and
/// addresses an update by the record's own identifier.
pub fn scenario_step(kind: Kind) -> (u: UpdateRequest)
    ensures
        u.wf(),
        u.record.kind() == kind,
        u.record.options_populated(),
{
    let record = generate_random(kind);
    let id = match identifier_of(&record) {
        Ok(s) => s,
        Err(_) => {
            proof {
                assert(false);
            }
            String::from_str("")
        },
    };
    proof {
        assert(is_identifier_for(id@, table_name(kind)));
        assert(id@[table_name(kind).len() as int] == ':');
    }
    let parts = parse_id_into_resource(id.as_str());
    proof {
        lemma_identifier_parts(id@, table_name(kind), parts.0@, parts.1@);
    }
    UpdateRequest { table: parts.0, key: parts.1, record }
}

/// Plans a whole scenario: `iterations` independent update requests, each
/// with a fresh record of `kind` keyed by its own identifier. The shell
/// issues them one by one, measuring each, and aborts on the first failed
/// update.
pub fn scenario_updates(kind: Kind, iterations: usize) -> (plan: Vec<UpdateRequest>)
    ensures
        plan@.len() == iterations,
        forall|i: int| 0 <= i < iterations ==> (#[trigger] plan@[i]).wf(),
        forall|i: int| 0 <= i < iterations ==> (#[trigger] plan@[i]).record.kind() == kind,
        forall|i: int| 0 <= i < iterations ==> (#[trigger] plan@[i]).record.options_populated(),
{
    let mut plan: Vec<UpdateRequest> = Vec::new();
    for _k in 0..iterations
        invariant
            plan@.len() == _k,
            forall|j: int| 0 <= j < _k ==> (#[trigger] plan@[j]).wf(),
            forall|j: int| 0 <= j < _k ==> (#[trigger] plan@[j]).record.kind() == kind,
            forall|j: int| 0 <= j < _k ==> (#[trigger] plan@[j]).record.options_populated(),
    {
        plan.push(scenario_step(kind));
    }
    plan
}

/// The definition statements are fixed configuration: any two computations
/// of the statements for one kind yield identical output, element for
/// element and in the same order.
pub proof fn lemma_definition_statements_stable(
    kind: Kind,
    first: Seq<Seq<char>>,
    second: Seq<Seq<char>>,
)
    requires
        first == definition_statements_spec(kind),
        second == definition_statements_spec(kind),
    ensures
        first == second,
{
}

} // verus!
