use crate::hash::same_text;
use crate::records::SheetData;
use vstd::prelude::*;
use vstd::string::StringExecFns;

verus! {

/// Why a column of a sheet was not found.
#[derive(Debug)]
pub enum ColumnError {
    /// The mapping names no column for the field.
    MappingRequired,
    /// The sheet has no column of the name that the mapping gives.
    NotFound(String),
}

/// The text that a column error is reported with.
pub open spec fn column_error_text(error: ColumnError) -> Seq<char> {
    match error {
        ColumnError::MappingRequired => "Column mapping is required"@,
        ColumnError::NotFound(name) => "Column '"@ + name@ + "' not found"@,
    }
}

impl ColumnError {
    /// The text that the error is reported with.
    pub fn message(&self) -> (text: String)
        ensures
            text@ == column_error_text(*self),
    {
        match self {
            ColumnError::MappingRequired => String::from_str("Column mapping is required"),
            ColumnError::NotFound(name) => {
                let mut text = String::from_str("Column '");
                text.append(name.as_str());
                text.append("' not found");
                text
            },
        }
    }
}

/// `at` is the position of the first column of the sheet with the given name.
pub open spec fn is_first_column(sheet: SheetData, name: Seq<char>, at: int) -> bool {
    &&& 0 <= at < sheet.columns@.len()
    &&& sheet.columns@[at].name@ == name
    &&& forall|i: int| 0 <= i < at ==> sheet.columns@[i].name@ != name
}

/// Whether the sheet has a column of the given name.
pub open spec fn has_column(sheet: SheetData, name: Seq<char>) -> bool {
    exists|i: int| 0 <= i < sheet.columns@.len() && sheet.columns@[i].name@ == name
}

fn position_of_column(sheet: &SheetData, name: &str) -> (at: Option<usize>)
    ensures
        match at {
            Some(i) => is_first_column(*sheet, name@, i as int),
            None => !has_column(*sheet, name@),
        },
{
    let mut i: usize = 0;
    while i < sheet.columns.len()
        invariant
            i <= sheet.columns@.len(),
            forall|k: int| 0 <= k < i ==> sheet.columns@[k].name@ != name@,
        decreases sheet.columns@.len() - i,
    {
        if same_text(sheet.columns[i].name.as_str(), name) {
            return Some(i);
        }
        i += 1;
    }
    None
}

/// The position of the column that the mapping names for a field that has
/// to be there: the first column of that name.
pub fn find_column_index(sheet: &SheetData, column_name: &Option<String>) -> (found: Result<
    usize,
    ColumnError,
>)
    ensures
        match found {
            Ok(at) => column_name is Some && is_first_column(*sheet, column_name->0@, at as int),
            Err(ColumnError::MappingRequired) => column_name is None,
            Err(ColumnError::NotFound(name)) => column_name is Some && name@ == column_name->0@
                && !has_column(*sheet, name@),
        },
{
    match column_name {
        None => Err(ColumnError::MappingRequired),
        Some(name) => match position_of_column(sheet, name.as_str()) {
            Some(at) => Ok(at),
            None => Err(ColumnError::NotFound(name.clone())),
        },
    }
}

/// The position of the column that the mapping names for a field that may
/// be missing.
pub fn find_column_index_opt(sheet: &SheetData, column_name: &Option<String>) -> (found: Option<
    usize,
>)
    ensures
        match found {
            Some(at) => column_name is Some && is_first_column(*sheet, column_name->0@, at as int),
            None => column_name is None || !has_column(*sheet, column_name->0@),
        },
{
    match column_name {
        None => None,
        Some(name) => position_of_column(sheet, name.as_str()),
    }
}

/// The cell of a row that a position names, or the empty text where
/// position or cell is missing.
pub open spec fn value_or_default(row: Seq<String>, index: Option<usize>) -> Seq<char> {
    match index {
        Some(at) => if at < row.len() {
            row[at as int]@
        } else {
            Seq::empty()
        },
        None => Seq::empty(),
    }
}

/// Reads a cell of a row, with the empty text for a missing one.
pub fn get_value_or_default(row: &[String], index: Option<usize>) -> (value: String)
    ensures
        value@ == value_or_default(row@, index),
{
    match index {
        Some(at) => {
            if at < row.len() {
                row[at].clone()
            } else {
                String::new()
            }
        },
        None => String::new(),
    }
}

} // verus!
