//! Record identifiers of the form `<table>:<key>`.
//!
//! Every generated record is addressed by an identifier made of its table
//! name, a colon, and a fresh random key of [`KEY_LEN`] alphanumeric
//! characters. Because the key characters are alphanumeric and the table
//! names hold no colon, the colon after the table name is the first colon in
//! the identifier, so the split into table and key is unambiguous.

use crate::entropy;
use vstd::prelude::*;

verus! {

/// Length of the random key part of an identifier.
pub const KEY_LEN: usize = 20;

/// Characters admitted in the random key of an identifier: ASCII digits and
/// letters.
pub open spec fn is_key_char(c: char) -> bool {
    ('0' <= c && c <= '9') || ('A' <= c && c <= 'Z') || ('a' <= c && c <= 'z')
}

/// All characters of `s` are key characters.
pub open spec fn all_key_chars(s: Seq<char>) -> bool {
    forall|i: int| 0 <= i < s.len() ==> is_key_char(#[trigger] s[i])
}

/// No character of `s` is a colon.
pub open spec fn colon_free(s: Seq<char>) -> bool {
    forall|i: int| 0 <= i < s.len() ==> #[trigger] s[i] != ':'
}

/// The key part of an identifier for `table`: everything after the colon.
pub open spec fn key_of(s: Seq<char>, table: Seq<char>) -> Seq<char> {
    s.subrange(table.len() as int + 1, s.len() as int)
}

/// `s` is an identifier for `table`: the table name, a colon, then a key of
/// `KEY_LEN` alphanumeric characters.
pub open spec fn is_identifier_for(s: Seq<char>, table: Seq<char>) -> bool {
    &&& colon_free(table)
    &&& s.len() == table.len() + 1 + KEY_LEN
    &&& s.subrange(0, table.len() as int) == table
    &&& s[table.len() as int] == ':'
    &&& all_key_chars(key_of(s, table))
}

/// Builds a fresh identifier for `table`: the table name, a colon, and a new
/// random key of `KEY_LEN` alphanumeric characters.
pub fn gen_rand_thing(table: &str) -> (r: String)
    requires
        colon_free(table@),
    ensures
        is_identifier_for(r@, table@),
{
    let key = entropy::fake_string_of_len(KEY_LEN);
    let mut r = String::from_str(table);
    r.append(":");
    r.append(key.as_str());
    proof {
        reveal_strlit(":");
        assert(r@.subrange(0, table@.len() as int) =~= table@);
        assert(key_of(r@, table@) =~= key@);
    }
    r
}

/// Splits an identifier at its first colon into the table name and the key,
/// as the driver does to address an update. The caller must pass a string
/// holding a colon; on such a string the two parts rebuild the input and the
/// table part is colon-free, which pins the split to the first colon.
pub fn parse_id_into_resource(id: &str) -> (r: (String, String))
    requires
        exists|k: int| 0 <= k < id@.len() && id@[k] == ':',
    ensures
        r.0@ + seq![':'] + r.1@ == id@,
        colon_free(r.0@),
{
    let len: usize = id.unicode_len();
    let mut i: usize = 0;
    loop
        invariant
            0 <= i <= id@.len(),
            id@.len() == len,
            colon_free(id@.subrange(0, i as int)),
            exists|k: int| i <= k < id@.len() && id@[k] == ':',
        ensures
            0 <= i < id@.len(),
            id@[i as int] == ':',
            colon_free(id@.subrange(0, i as int)),
        decreases id@.len() - i,
    {
        proof {
            let k = choose|k: int| i <= k < id@.len() && id@[k] == ':';
            assert(i < id@.len());
        }
        if id.get_char(i) == ':' {
            break;
        }
        proof {
            assert(colon_free(id@.subrange(0, i + 1 as int))) by {
                assert(forall|j: int|
                    0 <= j < i + 1 ==> #[trigger] id@.subrange(0, i + 1 as int)[j] != ':');
            }
            let k = choose|k: int| i <= k < id@.len() && id@[k] == ':';
            assert(i + 1 <= k < id@.len() && id@[k] == ':');
        }
        i = i + 1;
    }
    let tb = id.substring_char(0, i);
    let key = id.substring_char(i + 1, len);
    proof {
        assert(tb@ + seq![':'] + key@ =~= id@);
    }
    (String::from_str(tb), String::from_str(key))
}

/// An identifier determines its parts: splitting an identifier for `table`
/// at its first colon recovers exactly the table name and the key. The
/// driver relies on this when it re-addresses an update by a record's own
/// identifier.
pub proof fn lemma_identifier_parts(s: Seq<char>, table: Seq<char>, tb: Seq<char>, key: Seq<char>)
    requires
        is_identifier_for(s, table),
        tb + seq![':'] + key == s,
        colon_free(tb),
    ensures
        tb == table,
        key == key_of(s, table),
{
    let t = table.len() as int;
    let p = tb.len() as int;
    assert(s[p] == ':');
    if p < t {
        assert(s.subrange(0, t)[p] == ':');
        assert(false);
    }
    if p > t {
        assert(tb[t] == s[t]);
        assert(false);
    }
    assert(tb =~= s.subrange(0, t));
    assert(key =~= key_of(s, table));
}

/// Two identifiers for the same table with distinct keys are distinct. With
/// this, a run that draws pairwise-distinct random keys yields
/// pairwise-distinct identifiers.
pub proof fn lemma_distinct_keys_distinct_identifiers(
    s1: Seq<char>,
    s2: Seq<char>,
    table: Seq<char>,
)
    requires
        is_identifier_for(s1, table),
        is_identifier_for(s2, table),
        key_of(s1, table) != key_of(s2, table),
    ensures
        s1 != s2,
{
}

/// Identifiers for distinct tables are distinct: an identifier's table name
/// is the colon-free prefix before its first colon, so no string is an
/// identifier for two tables.
pub proof fn lemma_distinct_tables_distinct_identifiers(
    s1: Seq<char>,
    table1: Seq<char>,
    s2: Seq<char>,
    table2: Seq<char>,
)
    requires
        is_identifier_for(s1, table1),
        is_identifier_for(s2, table2),
        table1 != table2,
    ensures
        s1 != s2,
{
    if s1 == s2 {
        let t1 = table1.len() as int;
        let t2 = table2.len() as int;
        if t1 < t2 {
            assert(s2.subrange(0, t2)[t1] == ':');
            assert(false);
        }
        if t2 < t1 {
            assert(s1.subrange(0, t1)[t2] == ':');
            assert(false);
        }
        assert(table1 =~= s1.subrange(0, t1));
        assert(table2 =~= s2.subrange(0, t2));
        assert(false);
    }
}

} // verus!
