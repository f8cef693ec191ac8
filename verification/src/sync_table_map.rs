//! Table names on the two sides of the synchronisation.
//!
//! The protocol writes table names in camelCase, the local store in
//! snake_case. Names that read the same in both need no entry here.

use vstd::prelude::*;
use crate::text::str_eq;

verus! {

/// Pairs of (protocol name, local name) for the tables whose two names
/// differ. Every table of the tracker has a single-word name, so the list is
/// empty.
pub const TABLE_MAP: [(&'static str, &'static str); 0] = [];

/// The list of name pairs as a mathematical sequence.
pub open spec fn table_map() -> Seq<(Seq<char>, Seq<char>)> {
    Seq::new(TABLE_MAP@.len(), |i: int| (TABLE_MAP@[i].0@, TABLE_MAP@[i].1@))
}

/// The local name paired with the first protocol name equal to `name`, or
/// `name` itself where no pair has it.
pub open spec fn forward_lookup(pairs: Seq<(Seq<char>, Seq<char>)>, name: Seq<char>) -> Seq<char>
    decreases pairs.len(),
{
    if pairs.len() == 0 {
        name
    } else if pairs[0].0 == name {
        pairs[0].1
    } else {
        forward_lookup(pairs.drop_first(), name)
    }
}

/// The protocol name paired with the first local name equal to `name`, or
/// `name` itself where no pair has it.
pub open spec fn backward_lookup(pairs: Seq<(Seq<char>, Seq<char>)>, name: Seq<char>) -> Seq<char>
    decreases pairs.len(),
{
    if pairs.len() == 0 {
        name
    } else if pairs[0].1 == name {
        pairs[0].0
    } else {
        backward_lookup(pairs.drop_first(), name)
    }
}

/// The local table name for a protocol table name.
pub open spec fn sync_to_db_spec(sync_name: Seq<char>) -> Seq<char> {
    forward_lookup(table_map(), sync_name)
}

/// The protocol table name for a local table name.
pub open spec fn db_to_sync_spec(db_name: Seq<char>) -> Seq<char> {
    backward_lookup(table_map(), db_name)
}

/// Converts a protocol table name to the name of the local table.
pub fn sync_to_db(sync_name: &str) -> (db_name: &str)
    ensures
        db_name@ == sync_to_db_spec(sync_name@),
{
    let mut i: usize = 0;
    while i < TABLE_MAP.len()
        invariant
            i <= TABLE_MAP@.len(),
            forward_lookup(table_map(), sync_name@) == forward_lookup(
                table_map().skip(i as int),
                sync_name@,
            ),
        decreases TABLE_MAP@.len() - i,
    {
        let pair = TABLE_MAP[i];
        proof {
            let rest = table_map().skip(i as int);
            assert(rest[0] == table_map()[i as int]);
            assert(rest.drop_first() == table_map().skip(i as int + 1));
        }
        if str_eq(pair.0, sync_name) {
            return pair.1;
        }
        i = i + 1;
    }
    sync_name
}

/// Converts the name of a local table to its protocol table name.
pub fn db_to_sync(db_name: &str) -> (sync_name: &str)
    ensures
        sync_name@ == db_to_sync_spec(db_name@),
{
    let mut i: usize = 0;
    while i < TABLE_MAP.len()
        invariant
            i <= TABLE_MAP@.len(),
            backward_lookup(table_map(), db_name@) == backward_lookup(
                table_map().skip(i as int),
                db_name@,
            ),
        decreases TABLE_MAP@.len() - i,
    {
        let pair = TABLE_MAP[i];
        proof {
            let rest = table_map().skip(i as int);
            assert(rest[0] == table_map()[i as int]);
            assert(rest.drop_first() == table_map().skip(i as int + 1));
        }
        if str_eq(pair.1, db_name) {
            return pair.0;
        }
        i = i + 1;
    }
    db_name
}

/// With no differing names on record, a name is the same on both sides.
pub proof fn lemma_names_pass_unchanged(name: Seq<char>)
    ensures
        sync_to_db_spec(name) == name,
        db_to_sync_spec(name) == name,
{
    assert(table_map().len() == 0);
}

/// Converting a protocol name to its local name and back gives the protocol
/// name again, and the same the other way round.
pub proof fn lemma_table_names_round_trip(name: Seq<char>)
    ensures
        db_to_sync_spec(sync_to_db_spec(name)) == name,
        sync_to_db_spec(db_to_sync_spec(name)) == name,
{
    lemma_names_pass_unchanged(name);
}

} // verus!
