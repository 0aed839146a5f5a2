//! A discovered paper.

use vstd::prelude::*;
use vstd::string::*;

verus! {

/// A paper as the search reported it. `href` identifies the paper: the same
/// paper found under two search terms is one paper.
#[derive(Debug, PartialEq, Eq)]
pub struct Paper {
    pub keyword: String,
    pub title: String,
    pub journal: String,
    pub href: String,
}

/// The mathematical content of a `Paper`.
pub struct PaperView {
    pub keyword: Seq<char>,
    pub title: Seq<char>,
    pub journal: Seq<char>,
    pub href: Seq<char>,
}

impl View for Paper {
    type V = PaperView;

    open spec fn view(&self) -> PaperView {
        PaperView {
            keyword: self.keyword@,
            title: self.title@,
            journal: self.journal@,
            href: self.href@,
        }
    }
}

impl Clone for Paper {
    fn clone(&self) -> (r: Paper)
        ensures
            r@ == self@,
    {
        Paper {
            keyword: self.keyword.clone(),
            title: self.title.clone(),
            journal: self.journal.clone(),
            href: self.href.clone(),
        }
    }
}

/// The paper laid out for a reader: title, address, search term and journal,
/// one to a line, above a rule.
pub open spec fn pretty(p: PaperView) -> Seq<char> {
    "\n\ttitle: "@ + p.title + "\n\thref: "@ + p.href + "\n\tkeyword: "@ + p.keyword
        + "\n\tjournal: "@ + p.journal
        + "\n=================================================="@
}

impl Paper {
    /// The paper laid out for a reader.
    pub fn describe(&self) -> (r: String)
        ensures
            r@ == pretty(self@),
    {
        let mut r = String::from_str("\n\ttitle: ");
        r.append(self.title.as_str());
        r.append("\n\thref: ");
        r.append(self.href.as_str());
        r.append("\n\tkeyword: ");
        r.append(self.keyword.as_str());
        r.append("\n\tjournal: ");
        r.append(self.journal.as_str());
        r.append("\n==================================================");
        r
    }

    /// The four columns of the paper's row, in the order of the table.
    pub open spec fn columns(p: PaperView) -> Seq<Seq<char>> {
        seq![p.keyword, p.title, p.journal, p.href]
    }

    /// The four columns of this paper's row.
    pub fn fields(&self) -> (r: Vec<String>)
        ensures
            r.deep_view() == Paper::columns(self@),
    {
        let mut r: Vec<String> = Vec::new();
        r.push(self.keyword.clone());
        r.push(self.title.clone());
        r.push(self.journal.clone());
        r.push(self.href.clone());
        assert(r.deep_view() =~= Paper::columns(self@));
        r
    }
}

} // verus!
