//! The page result: a bounded window over an unbounded result set,
//! paired with the unfiltered total row count.

use vstd::prelude::*;

verus! {

/// One page of results.  `total` reflects the unfiltered underlying
/// query's row count, not the page's length; the page's length is
/// bounded by the LIMIT the backend honored.  The echoed `page_num`
/// and `page_size` report the request as it was given, before
/// normalization.
#[derive(Debug)]
pub struct PageData<T> {
    pub page_size: usize,
    pub page_num: usize,
    pub total: usize,
    pub data: Option<Vec<T>>,
}

impl<T> PageData<T> {
    /// The echoed page number.
    pub fn page_num(&self) -> (r: &usize)
        ensures
            *r == self.page_num,
    {
        &self.page_num
    }

    /// The echoed page size.
    pub fn page_size(&self) -> (r: &usize)
        ensures
            *r == self.page_size,
    {
        &self.page_size
    }

    /// The unfiltered total row count.
    pub fn total(&self) -> (r: &usize)
        ensures
            *r == self.total,
    {
        &self.total
    }

    /// The page's rows, if any were fetched.
    pub fn data(&self) -> (r: &Option<Vec<T>>)
        ensures
            *r == self.data,
    {
        &self.data
    }

    /// Takes the page's rows out, leaving none behind.
    pub fn data_take(&mut self) -> (r: Option<Vec<T>>)
        ensures
            r == old(self).data,
            final(self).data is None,
            final(self).page_num == old(self).page_num,
            final(self).page_size == old(self).page_size,
            final(self).total == old(self).total,
    {
        self.data.take()
    }

    /// Replaces the echoed page number.
    pub fn set_page_num(&mut self, page_num: usize)
        ensures
            final(self).page_num == page_num,
            final(self).page_size == old(self).page_size,
            final(self).total == old(self).total,
            final(self).data == old(self).data,
    {
        self.page_num = page_num;
    }

    /// Replaces the echoed page size.
    pub fn set_page_size(&mut self, page_size: usize)
        ensures
            final(self).page_size == page_size,
            final(self).page_num == old(self).page_num,
            final(self).total == old(self).total,
            final(self).data == old(self).data,
    {
        self.page_size = page_size;
    }

    /// Replaces the total.
    pub fn set_total(&mut self, total: usize)
        ensures
            final(self).total == total,
            final(self).page_num == old(self).page_num,
            final(self).page_size == old(self).page_size,
            final(self).data == old(self).data,
    {
        self.total = total;
    }

    /// Replaces the page's rows.
    pub fn set_data(&mut self, data: Option<Vec<T>>)
        ensures
            final(self).data == data,
            final(self).page_num == old(self).page_num,
            final(self).page_size == old(self).page_size,
            final(self).total == old(self).total,
    {
        self.data = data;
    }
}

impl<T> Default for PageData<T> {
    /// The empty page: everything zero, no rows.
    fn default() -> (r: PageData<T>)
        ensures
            r.page_num == 0usize,
            r.page_size == 0usize,
            r.total == 0usize,
            r.data is None,
    {
        PageData { page_size: 0, page_num: 0, total: 0, data: None }
    }
}

/// Assembles one page result: the request's page number and size are
/// echoed as given, the total is the count query's result, the rows
/// are the page query's materialized rows.
pub fn assemble_page<T>(page_num: usize, page_size: usize, total: usize, rows: Vec<T>) -> (p:
    PageData<T>)
    ensures
        p.page_num == page_num,
        p.page_size == page_size,
        p.total == total,
        p.data == Some(rows),
{
    PageData { page_size, page_num, total, data: Some(rows) }
}

} // verus!
