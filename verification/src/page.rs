use vstd::prelude::*;

verus! {

/// The closed set of pages the daemon can present. Navigation is total over
/// this set: every page has a defined previous and next page, saturating at
/// the two ends of the sequence.
#[derive(Debug, Clone, Copy, PartialEq, Eq, Structural)]
pub enum Page {
    Greet,
    Status,
}

impl Page {
    /// The page shown directly before this one; the first page is its own
    /// predecessor.
    pub open spec fn prev_spec(self) -> Page {
        match self {
            Page::Greet => Page::Greet,
            Page::Status => Page::Greet,
        }
    }

    /// The page shown directly after this one; the last page is its own
    /// successor.
    pub open spec fn next_spec(self) -> Page {
        match self {
            Page::Greet => Page::Status,
            Page::Status => Page::Status,
        }
    }

    /// The page's name, as it appears in the page indicator and in logs.
    pub open spec fn label_spec(self) -> Seq<char> {
        match self {
            Page::Greet => "Greet"@,
            Page::Status => "Status"@,
        }
    }

    /// The page's name, as it appears in the page indicator and in logs.
    pub fn label(&self) -> (r: &'static str)
        ensures
            r@ == self.label_spec(),
    {
        match self {
            Page::Greet => "Greet",
            Page::Status => "Status",
        }
    }
}

impl Default for Page {
    /// The daemon starts on the greeting page.
    fn default() -> (r: Self)
        ensures
            r == Page::Greet,
    {
        Page::Greet
    }
}

/// The mutable presentation state owned exclusively by the dispatch loop:
/// the page currently shown.
#[derive(Debug, Clone, Copy, PartialEq, Eq, Structural)]
pub struct DisplayState {
    pub page: Page,
}

impl DisplayState {
    pub fn new() -> (r: Self)
        ensures
            r.page == Page::Greet,
    {
        DisplayState { page: Page::Greet }
    }

    /// Move to the previous page, staying put on the first one.
    pub fn page_prev(&mut self)
        ensures
            final(self).page == old(self).page.prev_spec(),
    {
        self.page = match self.page {
            Page::Greet => Page::Greet,
            Page::Status => Page::Greet,
        };
    }

    /// Move to the next page, staying put on the last one.
    pub fn page_next(&mut self)
        ensures
            final(self).page == old(self).page.next_spec(),
    {
        self.page = match self.page {
            Page::Greet => Page::Status,
            Page::Status => Page::Status,
        };
    }
}

impl Default for DisplayState {
    fn default() -> (r: Self)
        ensures
            r.page == Page::Greet,
    {
        DisplayState { page: Page::Greet }
    }
}

/// Page navigation never leaves the closed set of pages — `prev_spec` and
/// `next_spec` are total functions into `Page` — and it saturates: applying
/// "previous" on the first page, or "next" on the last page, leaves the
/// page unchanged.
pub proof fn lemma_page_navigation_saturates()
    ensures
        Page::Greet.prev_spec() == Page::Greet,
        Page::Status.next_spec() == Page::Status,
        forall|p: Page| (#[trigger] p.prev_spec().prev_spec()) == p.prev_spec(),
        forall|p: Page| (#[trigger] p.next_spec().next_spec()) == p.next_spec(),
{
}

} // verus!
