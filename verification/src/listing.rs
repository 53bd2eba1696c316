//! A snapshot of listed users: one header row and the records under it.
//! Each list operation produces a fresh snapshot; the caller replaces any
//! prior one, there is no incremental merge.

use vstd::prelude::*;

verus! {

/// An ordered sequence of user records, every record as wide as the
/// header row.
#[derive(Debug)]
pub struct ListedUsers {
    headers: Vec<String>,
    rows: Vec<Vec<String>>,
}

impl ListedUsers {
    /// The header row.
    pub closed spec fn headers_spec(&self) -> Seq<String> {
        self.headers@
    }

    /// The records, in order.
    pub closed spec fn rows_spec(&self) -> Seq<Vec<String>> {
        self.rows@
    }

    /// A non-empty header row, and every record as wide as it.
    pub open spec fn wf(&self) -> bool {
        &&& self.headers_spec().len() > 0
        &&& forall|k: int|
            0 <= k < self.rows_spec().len() ==> (#[trigger] self.rows_spec()[k])@.len()
                == self.headers_spec().len()
    }

    /// Accepts the table exactly when the header row is non-empty and
    /// every record matches its width.
    pub fn new(headers: Vec<String>, rows: Vec<Vec<String>>) -> (r: Option<ListedUsers>)
        ensures
            r is Some <==> (headers@.len() > 0 && forall|k: int|
                0 <= k < rows@.len() ==> (#[trigger] rows@[k])@.len() == headers@.len()),
            r matches Some(l) ==> l.headers_spec() == headers@ && l.rows_spec() == rows@
                && l.wf(),
    {
        if headers.len() == 0 {
            return None;
        }
        let width = headers.len();
        let n = rows.len();
        let mut k: usize = 0;
        while k < n
            invariant
                0 <= k <= n == rows@.len(),
                width == headers@.len(),
                forall|j: int| 0 <= j < k ==> (#[trigger] rows@[j])@.len() == width,
            decreases n - k,
        {
            if rows[k].len() != width {
                return None;
            }
            k = k + 1;
        }
        Some(ListedUsers { headers, rows })
    }

    /// The header row.
    pub fn headers(&self) -> (r: &Vec<String>)
        ensures
            r@ == self.headers_spec(),
    {
        &self.headers
    }

    /// The records, in order.
    pub fn fields(&self) -> (r: &Vec<Vec<String>>)
        ensures
            r@ == self.rows_spec(),
    {
        &self.rows
    }

    /// How many records the snapshot holds.
    pub fn len(&self) -> (r: usize)
        ensures
            r == self.rows_spec().len(),
    {
        self.rows.len()
    }
}

} // verus!
