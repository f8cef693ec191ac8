//! The change record: one row's creation, update or deletion, in a form that
//! does not depend on how it travels.

use vstd::prelude::*;
use crate::binary64::{bits_of_integer, Binary64};
use crate::text::str_eq;

verus! {

/// The three tables that are kept in step with the remote store.
#[derive(Clone, Copy, Debug, PartialEq, Eq, Structural)]
pub enum Table {
    Transactions,
    Categories,
    Accounts,
}

impl Table {
    /// The name of the table in a change record.
    pub open spec fn name(self) -> Seq<char> {
        match self {
            Table::Transactions => "transactions"@,
            Table::Categories => "categories"@,
            Table::Accounts => "accounts"@,
        }
    }

    /// The table that a name stands for, where it is one of the three.
    pub open spec fn parse(name: Seq<char>) -> Option<Table> {
        if name == "transactions"@ {
            Some(Table::Transactions)
        } else if name == "categories"@ {
            Some(Table::Categories)
        } else if name == "accounts"@ {
            Some(Table::Accounts)
        } else {
            None
        }
    }

    /// The name of the table in a change record.
    pub fn as_str(&self) -> (name: &'static str)
        ensures
            name@ == self.name(),
    {
        match self {
            Table::Transactions => "transactions",
            Table::Categories => "categories",
            Table::Accounts => "accounts",
        }
    }

    /// The table that a name stands for, where it is one of the three.
    pub fn from_name(name: &str) -> (table: Option<Table>)
        ensures
            table == Table::parse(name@),
    {
        if str_eq(name, "transactions") {
            Some(Table::Transactions)
        } else if str_eq(name, "categories") {
            Some(Table::Categories)
        } else if str_eq(name, "accounts") {
            Some(Table::Accounts)
        } else {
            None
        }
    }

    /// A table read back from its own name is the table itself.
    pub proof fn lemma_name_round_trip(table: Table)
        ensures
            Table::parse(table.name()) == Some(table),
    {
        reveal_strlit("transactions");
        reveal_strlit("categories");
        reveal_strlit("accounts");
        assert("transactions"@.len() == 12);
        assert("categories"@.len() == 10);
        assert("accounts"@.len() == 8);
    }
}

/// The value of one field of a change record.
#[derive(Debug, PartialEq)]
pub enum FieldValue {
    /// No value. A record that is sent holds no such field.
    Null,
    Bool(bool),
    /// A whole number.
    Integer(i64),
    /// A number that is not written as a whole number.
    Number(Binary64),
    Text(String),
    /// A list or a nested record, which no field of the three tables holds.
    Other,
}

/// What a [`FieldValue`] holds.
pub enum FieldValueView {
    Null,
    Bool(bool),
    Integer(i64),
    Number(Binary64),
    Text(Seq<char>),
    Other,
}

impl FieldValueView {
    /// The value as text, where it is text.
    pub open spec fn as_text(self) -> Option<Seq<char>> {
        match self {
            FieldValueView::Text(s) => Some(s),
            _ => None,
        }
    }

    /// The value as a number with a fraction. A whole number is read as the
    /// nearest such number.
    pub open spec fn as_number(self) -> Option<Binary64> {
        match self {
            FieldValueView::Number(x) => Some(x),
            FieldValueView::Integer(i) => Some(Binary64 { bits: bits_of_integer(i as int) as u64 }),
            _ => None,
        }
    }

    /// The value as a whole number, where it is written as one.
    pub open spec fn as_integer(self) -> Option<i64> {
        match self {
            FieldValueView::Integer(i) => Some(i),
            _ => None,
        }
    }

    /// The value as a truth value, where it is one.
    pub open spec fn as_bool(self) -> Option<bool> {
        match self {
            FieldValueView::Bool(b) => Some(b),
            _ => None,
        }
    }
}

impl View for FieldValue {
    type V = FieldValueView;

    open spec fn view(&self) -> FieldValueView {
        match self {
            FieldValue::Null => FieldValueView::Null,
            FieldValue::Bool(b) => FieldValueView::Bool(*b),
            FieldValue::Integer(i) => FieldValueView::Integer(*i),
            FieldValue::Number(x) => FieldValueView::Number(*x),
            FieldValue::Text(s) => FieldValueView::Text(s@),
            FieldValue::Other => FieldValueView::Other,
        }
    }
}

impl Clone for FieldValue {
    fn clone(&self) -> (copy: FieldValue)
        ensures
            copy@ == self@,
    {
        match self {
            FieldValue::Null => FieldValue::Null,
            FieldValue::Bool(b) => FieldValue::Bool(*b),
            FieldValue::Integer(i) => FieldValue::Integer(*i),
            FieldValue::Number(x) => FieldValue::Number(*x),
            FieldValue::Text(s) => FieldValue::Text(s.clone()),
            FieldValue::Other => FieldValue::Other,
        }
    }
}

impl FieldValue {
    /// Whether there is no value.
    pub fn is_null(&self) -> (null: bool)
        ensures
            null == (self@ == FieldValueView::Null),
    {
        match self {
            FieldValue::Null => true,
            _ => false,
        }
    }

    /// The value as text, where it is text.
    pub fn as_text(&self) -> (text: Option<&String>)
        ensures
            match text {
                Some(s) => self@.as_text() == Some(s@),
                None => self@.as_text().is_none(),
            },
    {
        match self {
            FieldValue::Text(s) => Some(s),
            _ => None,
        }
    }

    /// The value as a number with a fraction; a whole number is read as the
    /// nearest such number.
    pub fn as_number(&self) -> (number: Option<Binary64>)
        ensures
            number == self@.as_number(),
    {
        match self {
            FieldValue::Number(x) => Some(*x),
            FieldValue::Integer(i) => Some(Binary64::from_integer(*i)),
            _ => None,
        }
    }

    /// The value as a whole number, where it is written as one.
    pub fn as_integer(&self) -> (integer: Option<i64>)
        ensures
            integer == self@.as_integer(),
    {
        match self {
            FieldValue::Integer(i) => Some(*i),
            _ => None,
        }
    }

    /// The value as a truth value, where it is one.
    pub fn as_bool(&self) -> (truth: Option<bool>)
        ensures
            truth == self@.as_bool(),
    {
        match self {
            FieldValue::Bool(b) => Some(*b),
            _ => None,
        }
    }
}

/// One named field of a change record.
#[derive(Debug, PartialEq)]
pub struct Field {
    pub name: String,
    pub value: FieldValue,
}

/// What a [`Field`] holds.
pub struct FieldView {
    pub name: Seq<char>,
    pub value: FieldValueView,
}

impl View for Field {
    type V = FieldView;

    open spec fn view(&self) -> FieldView {
        FieldView { name: self.name@, value: self.value@ }
    }
}

impl Clone for Field {
    fn clone(&self) -> (copy: Field)
        ensures
            copy@ == self@,
    {
        Field { name: self.name.clone(), value: self.value.clone() }
    }
}

impl Field {
    /// A field with a name and a value.
    pub fn new(name: &str, value: FieldValue) -> (field: Field)
        ensures
            field@ == (FieldView { name: name@, value: value@ }),
    {
        Field { name: name.to_owned(), value }
    }
}

/// What a list of fields holds.
pub open spec fn fields_view(fields: Seq<Field>) -> Seq<FieldView> {
    fields.map_values(|f: Field| f@)
}

/// The value that a list of fields gives to a name: that of the first field
/// with the name, and no value where no field has it.
pub open spec fn member(fields: Seq<FieldView>, name: Seq<char>) -> FieldValueView
    decreases fields.len(),
{
    if fields.len() == 0 {
        FieldValueView::Null
    } else if fields[0].name == name {
        fields[0].value
    } else {
        member(fields.drop_first(), name)
    }
}

/// The fields of a list that hold a value, in their order.
pub open spec fn without_nulls(fields: Seq<FieldView>) -> Seq<FieldView> {
    fields.filter(|f: FieldView| f.value != FieldValueView::Null)
}

/// The value that a list of fields gives to a name.
pub fn find_member<'a>(fields: &'a Vec<Field>, name: &str) -> (value: Option<&'a FieldValue>)
    ensures
        match value {
            Some(v) => v@ == member(fields_view(fields@), name@),
            None => member(fields_view(fields@), name@) == FieldValueView::Null,
        },
{
    let mut i: usize = 0;
    assert(fields_view(fields@).skip(0) =~= fields_view(fields@));
    while i < fields.len()
        invariant
            i <= fields.len(),
            member(fields_view(fields@), name@) == member(
                fields_view(fields@).skip(i as int),
                name@,
            ),
        decreases fields.len() - i,
    {
        proof {
            let rest = fields_view(fields@).skip(i as int);
            assert(rest[0] == fields@[i as int]@);
            assert(rest.drop_first() == fields_view(fields@).skip(i as int + 1));
        }
        if str_eq(fields[i].name.as_str(), name) {
            return Some(&fields[i].value);
        }
        i = i + 1;
    }
    None
}

/// Drops the fields that hold no value.
pub fn strip_nulls(fields: Vec<Field>) -> (kept: Vec<Field>)
    ensures
        fields_view(kept@) == without_nulls(fields_view(fields@)),
{
    let mut kept: Vec<Field> = Vec::new();
    let mut i: usize = 0;
    assert(fields_view(fields@).take(0) =~= Seq::<FieldView>::empty());
    assert(fields_view(kept@) =~= Seq::<FieldView>::empty());
    proof {
        reveal(Seq::filter);
    }
    while i < fields.len()
        invariant
            i <= fields.len(),
            fields_view(kept@) == without_nulls(fields_view(fields@).take(i as int)),
        decreases fields.len() - i,
    {
        proof {
            reveal(Seq::filter);
            let all = fields_view(fields@);
            assert(all.take(i as int + 1).drop_last() =~= all.take(i as int));
            assert(all.take(i as int + 1).last() == fields@[i as int]@);
        }
        if !fields[i].value.is_null() {
            let ghost before = fields_view(kept@);
            kept.push(fields[i].clone());
            assert(fields_view(kept@) =~= before.push(fields@[i as int]@));
        }
        i = i + 1;
    }
    assert(fields_view(fields@).take(fields.len() as int) =~= fields_view(fields@));
    kept
}

/// A copy of a list of fields.
pub fn clone_fields(fields: &Vec<Field>) -> (copy: Vec<Field>)
    ensures
        fields_view(copy@) == fields_view(fields@),
{
    let mut copy: Vec<Field> = Vec::new();
    let mut i: usize = 0;
    while i < fields.len()
        invariant
            i <= fields.len(),
            copy.len() == i,
            forall|j: int| 0 <= j < i ==> copy@[j]@ == fields@[j]@,
        decreases fields.len() - i,
    {
        copy.push(fields[i].clone());
        i = i + 1;
    }
    assert(fields_view(copy@) =~= fields_view(fields@));
    copy
}

/// One row's change: the table and row it is about, the version of the row,
/// whether the row was deleted, and the fields of the row that hold a value.
#[derive(Debug, PartialEq)]
pub struct ChangeRecord {
    pub table_name: String,
    pub row_id: String,
    pub data: Vec<Field>,
    pub version: i64,
    pub deleted: bool,
}

/// What a [`ChangeRecord`] holds.
pub struct ChangeRecordView {
    pub table_name: Seq<char>,
    pub row_id: Seq<char>,
    pub data: Seq<FieldView>,
    pub version: i64,
    pub deleted: bool,
}

impl View for ChangeRecord {
    type V = ChangeRecordView;

    open spec fn view(&self) -> ChangeRecordView {
        ChangeRecordView {
            table_name: self.table_name@,
            row_id: self.row_id@,
            data: fields_view(self.data@),
            version: self.version,
            deleted: self.deleted,
        }
    }
}

impl Clone for ChangeRecord {
    fn clone(&self) -> (copy: ChangeRecord)
        ensures
            copy@ == self@,
    {
        ChangeRecord {
            table_name: self.table_name.clone(),
            row_id: self.row_id.clone(),
            data: clone_fields(&self.data),
            version: self.version,
            deleted: self.deleted,
        }
    }
}

/// What a list of change records holds.
pub open spec fn records_view(records: Seq<ChangeRecord>) -> Seq<ChangeRecordView> {
    records.map_values(|r: ChangeRecord| r@)
}

impl ChangeRecordView {
    /// The table that the record is about, where it is one of the three.
    pub open spec fn table(self) -> Option<Table> {
        Table::parse(self.table_name)
    }
}

impl ChangeRecord {
    /// The table that the record is about, where it is one of the three.
    pub fn table(&self) -> (table: Option<Table>)
        ensures
            table == self@.table(),
    {
        Table::from_name(self.table_name.as_str())
    }
}

} // verus!
