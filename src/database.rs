//! Column metadata of the member table, as the database describes it.

use vstd::prelude::*;

verus! {

/// A member of the club, as the user interface first knew it.
#[derive(Clone, Copy, Debug, PartialEq, Eq)]
pub struct Member;

/// A member value for the interface layer to know the type by.
pub fn get_dummy_member() -> (r: Member)
    ensures
        r == Member,
{
    Member
}

/// One row of the database's description of a column.
#[derive(Clone, Debug)]
pub struct ColumnTypeRequestResult {
    pub column_name: String,
    pub data_type: String,
    pub udt_name: String,
    pub is_nullable: String,
}

/// What the library needs to know of a column's type.
#[derive(Clone, Debug)]
pub struct ColumnTypeInfo {
    pub column_name: String,
    /// For an array column, the type of its elements.
    pub data_type: String,
    pub is_array: bool,
    pub is_nullable: bool,
}

/// A change of one column of one member.
#[derive(Clone, Debug)]
pub struct ChangeRecord {
    /// The primary key of the member.
    pub membershipid: i32,
    pub column: String,
    pub previous_value: Option<String>,
    pub new_value: Option<String>,
}

/// The element type of the database's array type `array_type`, where known.
pub open spec fn array_element_type(array_type: Seq<char>) -> Option<Seq<char>> {
    if array_type == "_int4"@ {
        Some("integer"@)
    } else {
        None
    }
}

/// What a column's description tells: the type (of its elements, for an array),
/// whether it is an array and whether it admits null.
pub open spec fn column_type_of(row: ColumnTypeRequestResult) -> Option<(Seq<char>, bool, bool)> {
    let is_array = row.data_type@ == "ARRAY"@;
    let is_nullable = row.is_nullable@ == "YES"@;
    if is_array {
        match array_element_type(row.udt_name@) {
            Some(t) => Some((t, true, is_nullable)),
            None => None,
        }
    } else {
        Some((row.data_type@, false, is_nullable))
    }
}

/// The element type of the array type `array_type`: `integer` for `_int4`, no
/// other is known.
pub fn convert_array_type(array_type: &str) -> (r: Option<&'static str>)
    ensures
        match (r, array_element_type(array_type@)) {
            (Some(t), Some(u)) => t@ == u,
            (None, None) => true,
            _ => false,
        },
{
    if String::from_str(array_type) == String::from_str("_int4") {
        Some("integer")
    } else {
        None
    }
}

/// The type of a column from the rows that describe it: there must be exactly
/// one, and an array's element type must be known.
pub fn column_type_from_rows(rows: Vec<ColumnTypeRequestResult>) -> (r: Option<ColumnTypeInfo>)
    ensures
        rows@.len() != 1 ==> r is None,
        rows@.len() == 1 ==> match (r, column_type_of(rows@[0])) {
            (Some(info), Some((t, is_array, is_nullable))) => {
                &&& info.column_name@ == rows@[0].column_name@
                &&& info.data_type@ == t
                &&& info.is_array == is_array
                &&& info.is_nullable == is_nullable
            },
            (None, None) => true,
            _ => false,
        },
{
    if rows.len() != 1 {
        return None;
    }
    let mut rows = rows;
    let row = rows.pop().unwrap();
    let is_array = row.data_type == String::from_str("ARRAY");
    let is_nullable = row.is_nullable == String::from_str("YES");
    if is_array {
        match convert_array_type(row.udt_name.as_str()) {
            Some(t) => Some(
                ColumnTypeInfo {
                    column_name: row.column_name,
                    data_type: String::from_str(t),
                    is_array,
                    is_nullable,
                },
            ),
            None => None,
        }
    } else {
        Some(
            ColumnTypeInfo {
                column_name: row.column_name,
                data_type: row.data_type,
                is_array,
                is_nullable,
            },
        )
    }
}

} // verus!
