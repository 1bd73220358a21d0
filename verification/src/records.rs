//! The three synthetic record shapes and their randomized generators.
//!
//! Each record carries an out-of-band identifier (`<table>:<key>`) used to
//! address the row; the identifier is assigned once at generation and never
//! mutated. Every "optional" field is populated at generation: the options
//! describe the wire schema's nullability, not the generator's behavior.

use crate::entropy;
use crate::ident::gen_rand_thing;
use crate::ident::is_identifier_for;
use vstd::prelude::*;

verus! {

/// The smallest record shape: one integer and one text field.
pub struct Small {
    pub id: Option<String>,
    pub int: u32,
    pub string: String,
}

impl Small {
    /// A generated `Small` is well formed: it has an identifier for table
    /// `small` and a non-empty text field.
    pub open spec fn wf(self) -> bool {
        &&& self.id matches Some(i) && is_identifier_for(i@, "small"@)
        &&& self.string@.len() > 0
    }

    /// Generates a fresh `Small` with a new unique identifier and
    /// independently randomized field values.
    pub fn generate() -> (r: Small)
        ensures
            r.wf(),
            r.id is Some,
    {
        proof {
            reveal_strlit("small");
        }
        let id = gen_rand_thing("small");
        Small { id: Some(id), int: entropy::fake_u32(), string: entropy::fake_string() }
    }

    /// The fixed schema-definition statements for table `small`: one
    /// schema-enforcing table declaration, then one typed declaration per
    /// field.
    pub fn define_statements() -> (r: Vec<&'static str>)
        ensures
            r.deep_view() == small_statements(),
    {
        let mut r: Vec<&'static str> = Vec::new();
        r.push("DEFINE TABLE small SCHEMAFULL");
        r.push("DEFINE FIELD int ON TABLE small TYPE int");
        r.push("DEFINE FIELD string ON TABLE small TYPE string");
        proof {
            assert(r.deep_view() =~= small_statements());
        }
        r
    }
}

/// The schema-definition statements for table `small`, as character
/// sequences.
pub open spec fn small_statements() -> Seq<Seq<char>> {
    seq![
        "DEFINE TABLE small SCHEMAFULL"@,
        "DEFINE FIELD int ON TABLE small TYPE int"@,
        "DEFINE FIELD string ON TABLE small TYPE string"@,
    ]
}

/// The middle record shape: nested `Small` records, fixed-length text
/// sequences, populated optional fields, and a text reference to a `Small`
/// identifier.
pub struct Medium {
    pub id: Option<String>,
    pub nested_smalls: Vec<Small>,
    pub array: Vec<String>,
    pub opt_string: Option<String>,
    pub opt_int: Option<u32>,
    pub opt_vec: Option<Vec<String>>,
    pub linked_thing: String,
}

impl Medium {
    /// A generated `Medium` is well formed: it has an identifier for table
    /// `medium`, exactly 5 well-formed nested `Small` records, exactly 30
    /// non-empty strings in `array`, exactly 20 non-empty strings in
    /// `opt_vec` when it is present, and a `linked_thing` that is a
    /// syntactically valid `Small` identifier.
    pub open spec fn wf(self) -> bool {
        &&& self.id matches Some(i) && is_identifier_for(i@, "medium"@)
        &&& self.nested_smalls@.len() == 5
        &&& forall|k: int| 0 <= k < 5 ==> (#[trigger] self.nested_smalls@[k]).wf()
        &&& self.array@.len() == 30
        &&& forall|k: int| 0 <= k < 30 ==> (#[trigger] self.array@[k])@.len() > 0
        &&& self.opt_string matches Some(s) ==> s@.len() > 0
        &&& self.opt_vec matches Some(v) ==> v@.len() == 20 && forall|k: int|
            0 <= k < 20 ==> (#[trigger] v@[k])@.len() > 0
        &&& is_identifier_for(self.linked_thing@, "small"@)
    }

    /// All optional fields carry a value, the generator's fixed policy.
    pub open spec fn options_populated(self) -> bool {
        &&& self.opt_string is Some
        &&& self.opt_int is Some
        &&& self.opt_vec is Some
    }

    /// Generates a fresh `Medium` with a new unique identifier and
    /// independently randomized field values; every optional field is
    /// populated.
    pub fn generate() -> (r: Medium)
        ensures
            r.wf(),
            r.id is Some,
            r.options_populated(),
    {
        proof {
            reveal_strlit("small");
            reveal_strlit("medium");
        }
        let id = gen_rand_thing("medium");
        let mut nested_smalls: Vec<Small> = Vec::new();
        for _k in 0..5usize
            invariant
                nested_smalls@.len() == _k,
                forall|j: int| 0 <= j < _k ==> (#[trigger] nested_smalls@[j]).wf(),
        {
            nested_smalls.push(Small::generate());
        }
        let array = fresh_strings(30);
        let opt_string = Some(entropy::fake_string());
        let opt_int = Some(entropy::fake_u32());
        let opt_vec = Some(fresh_strings(20));
        let linked_thing = gen_rand_thing("small");
        Medium { id: Some(id), nested_smalls, array, opt_string, opt_int, opt_vec, linked_thing }
    }

    /// The fixed schema-definition statements for table `medium`: one
    /// schema-enforcing table declaration, then one typed declaration per
    /// field.
    pub fn define_statements() -> (r: Vec<&'static str>)
        ensures
            r.deep_view() == medium_statements(),
    {
        let mut r: Vec<&'static str> = Vec::new();
        r.push("DEFINE TABLE medium SCHEMAFULL");
        r.push("DEFINE FIELD nested_smalls ON TABLE medium TYPE array");
        r.push("DEFINE FIELD array ON TABLE medium TYPE array");
        r.push("DEFINE FIELD opt_string ON TABLE medium TYPE string");
        r.push("DEFINE FIELD opt_int ON TABLE medium TYPE int");
        r.push("DEFINE FIELD opt_vec ON TABLE medium TYPE array");
        r.push("DEFINE FIELD linked_thing ON TABLE medium TYPE record (small)");
        proof {
            assert(r.deep_view() =~= medium_statements());
        }
        r
    }
}

/// The schema-definition statements for table `medium`, as character
/// sequences.
pub open spec fn medium_statements() -> Seq<Seq<char>> {
    seq![
        "DEFINE TABLE medium SCHEMAFULL"@,
        "DEFINE FIELD nested_smalls ON TABLE medium TYPE array"@,
        "DEFINE FIELD array ON TABLE medium TYPE array"@,
        "DEFINE FIELD opt_string ON TABLE medium TYPE string"@,
        "DEFINE FIELD opt_int ON TABLE medium TYPE int"@,
        "DEFINE FIELD opt_vec ON TABLE medium TYPE array"@,
        "DEFINE FIELD linked_thing ON TABLE medium TYPE record (small)"@,
    ]
}

/// The largest record shape: nested `Medium` records, two map-shaped fields
/// held as key/value pair sequences, six integer fields of distinct widths,
/// and twenty independent text fields.
///
/// The map-shaped fields are ordered pair sequences here; the store-facing
/// document rebuilds them as maps, where a repeated random key overwrites
/// (last write wins).
pub struct Large {
    pub id: Option<String>,
    pub nested_mediums: Vec<Medium>,
    pub opt_object: Option<Vec<(String, String)>>,
    pub nested_array_in_object: Vec<(String, Vec<String>)>,
    pub int1: u8,
    pub int2: u16,
    pub int3: u32,
    pub int5: i8,
    pub int6: i16,
    pub int7: i32,
    pub opt_int: Option<u32>,
    pub string1: String,
    pub string2: String,
    pub string3: String,
    pub string4: String,
    pub string5: String,
    pub string6: String,
    pub string7: String,
    pub string8: String,
    pub string9: String,
    pub string10: String,
    pub string11: String,
    pub string12: String,
    pub string13: String,
    pub string14: String,
    pub string15: String,
    pub string16: String,
    pub string17: String,
    pub string18: String,
    pub string19: String,
    pub string20: String,
    pub opt_string: Option<String>,
}

impl Large {
    /// A generated `Large` is well formed: it has an identifier for table
    /// `large`, exactly 20 well-formed nested `Medium` records, map-shaped
    /// fields of at most 255 entries with non-empty keys and values (each
    /// nested array holding exactly 10 non-empty strings), and non-empty
    /// text fields.
    pub open spec fn wf(self) -> bool {
        &&& self.id matches Some(i) && is_identifier_for(i@, "large"@)
        &&& self.nested_mediums@.len() == 20
        &&& forall|k: int| 0 <= k < 20 ==> (#[trigger] self.nested_mediums@[k]).wf()
        &&& self.opt_object matches Some(m) ==> m@.len() <= 255 && forall|k: int|
            0 <= k < m@.len() ==> (#[trigger] m@[k]).0@.len() > 0 && m@[k].1@.len() > 0
        &&& self.nested_array_in_object@.len() <= 255
        &&& forall|k: int| 0 <= k < self.nested_array_in_object@.len() ==> {
            let entry = #[trigger] self.nested_array_in_object@[k];
            entry.0@.len() > 0 && entry.1@.len() == 10 && forall|j: int|
                0 <= j < 10 ==> (#[trigger] entry.1@[j])@.len() > 0
        }
        &&& self.opt_string matches Some(s) ==> s@.len() > 0
        &&& self.string1@.len() > 0
        &&& self.string2@.len() > 0
        &&& self.string3@.len() > 0
        &&& self.string4@.len() > 0
        &&& self.string5@.len() > 0
        &&& self.string6@.len() > 0
        &&& self.string7@.len() > 0
        &&& self.string8@.len() > 0
        &&& self.string9@.len() > 0
        &&& self.string10@.len() > 0
        &&& self.string11@.len() > 0
        &&& self.string12@.len() > 0
        &&& self.string13@.len() > 0
        &&& self.string14@.len() > 0
        &&& self.string15@.len() > 0
        &&& self.string16@.len() > 0
        &&& self.string17@.len() > 0
        &&& self.string18@.len() > 0
        &&& self.string19@.len() > 0
        &&& self.string20@.len() > 0
    }

    /// All optional fields carry a value, the generator's fixed policy: the
    /// record's own options and those of every nested `Medium`.
    pub open spec fn options_populated(self) -> bool {
        &&& self.opt_object is Some
        &&& self.opt_int is Some
        &&& self.opt_string is Some
        &&& forall|k: int|
            0 <= k < self.nested_mediums@.len() ==> (#[trigger] self.nested_mediums@[k]).options_populated()
    }

    /// Generates a fresh `Large` with a new unique identifier and
    /// independently randomized field values; every optional field is
    /// populated, and each map-shaped field gets a random number of entries
    /// drawn from the full range of an unsigned 8-bit count.
    pub fn generate() -> (r: Large)
        ensures
            r.wf(),
            r.id is Some,
            r.options_populated(),
    {
        proof {
            reveal_strlit("large");
        }
        let id = gen_rand_thing("large");
        let mut nested_mediums: Vec<Medium> = Vec::new();
        for _k in 0..20usize
            invariant
                nested_mediums@.len() == _k,
                forall|j: int| 0 <= j < _k ==> (#[trigger] nested_mediums@[j]).wf(),
                forall|j: int| 0 <= j < _k ==> (#[trigger] nested_mediums@[j]).options_populated(),
        {
            nested_mediums.push(Medium::generate());
        }
        let opt_object = Some(fresh_pairs(entropy::fake_u8()));
        let nested_array_in_object = fresh_keyed_arrays(entropy::fake_u8());
        Large {
            id: Some(id),
            nested_mediums,
            opt_object,
            nested_array_in_object,
            int1: entropy::fake_u8(),
            int2: entropy::fake_u16(),
            int3: entropy::fake_u32(),
            int5: entropy::fake_i8(),
            int6: entropy::fake_i16(),
            int7: entropy::fake_i32(),
            opt_int: Some(entropy::fake_u32()),
            string1: entropy::fake_string(),
            string2: entropy::fake_string(),
            string3: entropy::fake_string(),
            string4: entropy::fake_string(),
            string5: entropy::fake_string(),
            string6: entropy::fake_string(),
            string7: entropy::fake_string(),
            string8: entropy::fake_string(),
            string9: entropy::fake_string(),
            string10: entropy::fake_string(),
            string11: entropy::fake_string(),
            string12: entropy::fake_string(),
            string13: entropy::fake_string(),
            string14: entropy::fake_string(),
            string15: entropy::fake_string(),
            string16: entropy::fake_string(),
            string17: entropy::fake_string(),
            string18: entropy::fake_string(),
            string19: entropy::fake_string(),
            string20: entropy::fake_string(),
            opt_string: Some(entropy::fake_string()),
        }
    }
    /// The fixed schema-definition statements for table `large`: one
    /// schema-enforcing table declaration, then one typed declaration per
    /// field.
    pub fn define_statements() -> (r: Vec<&'static str>)
        ensures
            r.deep_view() == large_statements(),
    {
        let mut r: Vec<&'static str> = Vec::new();
        r.push("DEFINE TABLE large SCHEMAFULL");
        r.push("DEFINE FIELD nested_mediums ON TABLE large TYPE array");
        r.push("DEFINE FIELD opt_object ON TABLE large TYPE object");
        r.push("DEFINE FIELD nested_array_in_object ON TABLE large TYPE object");
        r.push("DEFINE FIELD int1 ON TABLE large TYPE int");
        r.push("DEFINE FIELD int2 ON TABLE large TYPE int");
        r.push("DEFINE FIELD int3 ON TABLE large TYPE int");
        r.push("DEFINE FIELD int5 ON TABLE large TYPE int");
        r.push("DEFINE FIELD int6 ON TABLE large TYPE int");
        r.push("DEFINE FIELD int7 ON TABLE large TYPE int");
        r.push("DEFINE FIELD opt_int ON TABLE large TYPE int");
        r.push("DEFINE FIELD string1 ON TABLE large TYPE string");
        r.push("DEFINE FIELD string2 ON TABLE large TYPE string");
        r.push("DEFINE FIELD string3 ON TABLE large TYPE string");
        r.push("DEFINE FIELD string4 ON TABLE large TYPE string");
        r.push("DEFINE FIELD string5 ON TABLE large TYPE string");
        r.push("DEFINE FIELD string6 ON TABLE large TYPE string");
        r.push("DEFINE FIELD string7 ON TABLE large TYPE string");
        r.push("DEFINE FIELD string8 ON TABLE large TYPE string");
        r.push("DEFINE FIELD string9 ON TABLE large TYPE string");
        r.push("DEFINE FIELD string10 ON TABLE large TYPE string");
        r.push("DEFINE FIELD string11 ON TABLE large TYPE string");
        r.push("DEFINE FIELD string12 ON TABLE large TYPE string");
        r.push("DEFINE FIELD string13 ON TABLE large TYPE string");
        r.push("DEFINE FIELD string14 ON TABLE large TYPE string");
        r.push("DEFINE FIELD string15 ON TABLE large TYPE string");
        r.push("DEFINE FIELD string16 ON TABLE large TYPE string");
        r.push("DEFINE FIELD string17 ON TABLE large TYPE string");
        r.push("DEFINE FIELD string18 ON TABLE large TYPE string");
        r.push("DEFINE FIELD string19 ON TABLE large TYPE string");
        r.push("DEFINE FIELD string20 ON TABLE large TYPE string");
        r.push("DEFINE FIELD opt_string ON TABLE large TYPE string");
        proof {
            assert(r.deep_view() =~= large_statements());
        }
        r
    }
}

/// The schema-definition statements for table `large`, as character
/// sequences.
pub open spec fn large_statements() -> Seq<Seq<char>> {
    seq![
        "DEFINE TABLE large SCHEMAFULL"@,
        "DEFINE FIELD nested_mediums ON TABLE large TYPE array"@,
        "DEFINE FIELD opt_object ON TABLE large TYPE object"@,
        "DEFINE FIELD nested_array_in_object ON TABLE large TYPE object"@,
        "DEFINE FIELD int1 ON TABLE large TYPE int"@,
        "DEFINE FIELD int2 ON TABLE large TYPE int"@,
        "DEFINE FIELD int3 ON TABLE large TYPE int"@,
        "DEFINE FIELD int5 ON TABLE large TYPE int"@,
        "DEFINE FIELD int6 ON TABLE large TYPE int"@,
        "DEFINE FIELD int7 ON TABLE large TYPE int"@,
        "DEFINE FIELD opt_int ON TABLE large TYPE int"@,
        "DEFINE FIELD string1 ON TABLE large TYPE string"@,
        "DEFINE FIELD string2 ON TABLE large TYPE string"@,
        "DEFINE FIELD string3 ON TABLE large TYPE string"@,
        "DEFINE FIELD string4 ON TABLE large TYPE string"@,
        "DEFINE FIELD string5 ON TABLE large TYPE string"@,
        "DEFINE FIELD string6 ON TABLE large TYPE string"@,
        "DEFINE FIELD string7 ON TABLE large TYPE string"@,
        "DEFINE FIELD string8 ON TABLE large TYPE string"@,
        "DEFINE FIELD string9 ON TABLE large TYPE string"@,
        "DEFINE FIELD string10 ON TABLE large TYPE string"@,
        "DEFINE FIELD string11 ON TABLE large TYPE string"@,
        "DEFINE FIELD string12 ON TABLE large TYPE string"@,
        "DEFINE FIELD string13 ON TABLE large TYPE string"@,
        "DEFINE FIELD string14 ON TABLE large TYPE string"@,
        "DEFINE FIELD string15 ON TABLE large TYPE string"@,
        "DEFINE FIELD string16 ON TABLE large TYPE string"@,
        "DEFINE FIELD string17 ON TABLE large TYPE string"@,
        "DEFINE FIELD string18 ON TABLE large TYPE string"@,
        "DEFINE FIELD string19 ON TABLE large TYPE string"@,
        "DEFINE FIELD string20 ON TABLE large TYPE string"@,
        "DEFINE FIELD opt_string ON TABLE large TYPE string"@,
    ]
}

/// Generates `n` key/value pairs of fresh random non-empty strings.
fn fresh_pairs(n: u8) -> (r: Vec<(String, String)>)
    ensures
        r@.len() == n,
        forall|k: int| 0 <= k < n ==> (#[trigger] r@[k]).0@.len() > 0 && r@[k].1@.len() > 0,
{
    let mut r: Vec<(String, String)> = Vec::new();
    for _k in 0..n
        invariant
            r@.len() == _k,
            forall|j: int| 0 <= j < _k ==> (#[trigger] r@[j]).0@.len() > 0 && r@[j].1@.len() > 0,
    {
        r.push((entropy::fake_string(), entropy::fake_string()));
    }
    r
}

/// Generates `n` entries keying a fresh random non-empty string to a
/// sequence of exactly 10 fresh random non-empty strings.
fn fresh_keyed_arrays(n: u8) -> (r: Vec<(String, Vec<String>)>)
    ensures
        r@.len() == n,
        forall|k: int| 0 <= k < n ==> {
            let entry = #[trigger] r@[k];
            entry.0@.len() > 0 && entry.1@.len() == 10 && forall|j: int|
                0 <= j < 10 ==> (#[trigger] entry.1@[j])@.len() > 0
        },
{
    let mut r: Vec<(String, Vec<String>)> = Vec::new();
    for _k in 0..n
        invariant
            r@.len() == _k,
            forall|j: int| 0 <= j < _k ==> {
                let entry = #[trigger] r@[j];
                entry.0@.len() > 0 && entry.1@.len() == 10 && forall|i: int|
                    0 <= i < 10 ==> (#[trigger] entry.1@[i])@.len() > 0
            },
    {
        r.push((entropy::fake_string(), fresh_strings(10)));
    }
    r
}

/// Generates `n` fresh random non-empty strings.
fn fresh_strings(n: usize) -> (r: Vec<String>)
    ensures
        r@.len() == n,
        forall|k: int| 0 <= k < n ==> (#[trigger] r@[k])@.len() > 0,
{
    let mut r: Vec<String> = Vec::new();
    for _k in 0..n
        invariant
            r@.len() == _k,
            forall|j: int| 0 <= j < _k ==> (#[trigger] r@[j])@.len() > 0,
    {
        r.push(entropy::fake_string());
    }
    r
}

} // verus!
