//! The backend-agnostic result row: an ordered sequence of column
//! names plus a keyed sequence of column values.
//!
//! The value sequence acts as a map from column name to value: a later
//! entry for a name shadows an earlier one, as repeated insertion into
//! a keyed map would.

use crate::value::RdbcValue;
use vstd::prelude::*;

verus! {

/// Looks a name up in a keyed value sequence.  The last entry with the
/// name wins, mirroring repeated map insertion.
pub open spec fn lookup_spec(data: Seq<(String, RdbcValue)>, name: Seq<char>) -> Option<RdbcValue>
    decreases data.len(),
{
    if data.len() == 0 {
        None
    } else if data.last().0@ == name {
        Some(data.last().1)
    } else {
        lookup_spec(data.drop_last(), name)
    }
}

/// One decoded result row.
#[derive(Debug)]
pub struct RdbcOrmRow {
    /// The column names in result order.
    pub columns: Vec<String>,
    /// The keyed value sequence, in insertion order.
    pub data: Vec<(String, RdbcValue)>,
}

impl RdbcOrmRow {
    /// The value a name maps to, if any.
    pub open spec fn get_spec(self, name: Seq<char>) -> Option<RdbcValue> {
        lookup_spec(self.data@, name)
    }

    /// A row is in lockstep when every column name has exactly one
    /// value entry, in the same position.
    pub open spec fn wf(self) -> bool {
        &&& self.data@.len() == self.columns@.len()
        &&& forall|i: int|
            0 <= i < self.data@.len() ==> (#[trigger] self.data@[i]).0@ == self.columns@[i]@
    }

    /// The empty row.
    pub fn new() -> (r: RdbcOrmRow)
        ensures
            r.columns@.len() == 0,
            r.data@.len() == 0,
            r.wf(),
    {
        RdbcOrmRow { columns: Vec::new(), data: Vec::new() }
    }

    /// The column names in result order.
    pub fn get_columns(&self) -> (r: &Vec<String>)
        ensures
            r@ == self.columns@,
    {
        &self.columns
    }

    /// The keyed value sequence.
    pub fn get_data(&self) -> (r: &Vec<(String, RdbcValue)>)
        ensures
            r@ == self.data@,
    {
        &self.data
    }

    /// Appends one decoded column: the name goes to the column
    /// sequence, the name and value to the keyed value sequence.
    pub fn push_column(&mut self, name: String, value: RdbcValue)
        ensures
            final(self).columns@ == old(self).columns@.push(name),
            final(self).data@.len() == old(self).data@.len() + 1,
            final(self).data@.last().0 == name,
            final(self).data@.last().1 == value,
            final(self).data@.drop_last() == old(self).data@,
            old(self).wf() ==> final(self).wf(),
    {
        let name_for_data = name.clone();
        self.columns.push(name);
        self.data.push((name_for_data, value));
        proof {
            assert(final(self).data@.drop_last() =~= old(self).data@);
        }
    }

    /// Looks a column name up.  When several entries carry the name,
    /// the last one wins, as with repeated insertion into a keyed map.
    pub fn get(&self, name: &str) -> (r: Option<&RdbcValue>)
        ensures
            match r {
                Some(v) => self.get_spec(name@) == Some(*v),
                None => self.get_spec(name@) is None,
            },
    {
        let wanted = String::from_str(name);
        let mut i = self.data.len();
        proof {
            assert(self.data@.take(self.data@.len() as int) =~= self.data@);
        }
        while i > 0
            invariant
                i <= self.data@.len(),
                wanted@ == name@,
                lookup_spec(self.data@, name@) == lookup_spec(self.data@.take(i as int), name@),
            decreases i,
        {
            let entry = &self.data[i - 1];
            proof {
                assert(self.data@.take(i as int).last() == self.data@[i - 1]);
                assert(self.data@.take(i as int).drop_last() =~= self.data@.take(i - 1));
            }
            if entry.0 == wanted {
                return Some(&entry.1);
            }
            i = i - 1;
        }
        proof {
            assert(self.data@.take(0) =~= Seq::<(String, RdbcValue)>::empty());
        }
        None
    }
}

impl Default for RdbcOrmRow {
    /// The default row is the empty row.
    fn default() -> (r: RdbcOrmRow)
        ensures
            r.columns@.len() == 0,
            r.data@.len() == 0,
    {
        RdbcOrmRow::new()
    }
}

} // verus!
