//! Rows of the `sessions` table.
use vstd::prelude::*;

verus! {

/// Mathematical form of a session row: the two strings and both timestamps.
pub struct RowModel {
    pub session_id: Seq<char>,
    pub access_token: Seq<char>,
    pub created_at: i64,
    pub updated_at: i64,
}

/// A row to insert into `sessions`; its `id` is assigned by the database.
#[derive(Clone, Debug, PartialEq, Eq)]
pub struct Model {
    pub session_id: String,
    pub access_token: String,
    pub created_at: i64,
    pub updated_at: i64,
}

impl View for Model {
    type V = RowModel;

    open spec fn view(&self) -> RowModel {
        RowModel {
            session_id: self.session_id@,
            access_token: self.access_token@,
            created_at: self.created_at,
            updated_at: self.updated_at,
        }
    }
}

/// The models of a sequence of rows, in order.
pub open spec fn rows_view(rows: Seq<Model>) -> Seq<RowModel> {
    rows.map_values(|r: Model| r@)
}

} // verus!
