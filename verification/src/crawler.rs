//! What the crawler computes around the browser: the address to open for a
//! search term, and the paper that a result item stands for.

use vstd::prelude::*;
use vstd::string::*;
use crate::decimal::{decimal_text, render_decimal};
use crate::paper::{Paper, PaperView};
use crate::text::{field, join, join_texts, nth_field, split_words, words};

verus! {

/// A link inside a result item.
#[derive(Debug)]
pub struct Anchor {
    /// The element as markup: the tag with its attributes, then the text.
    pub content: String,
    /// The text that the link shows.
    pub inner_text: String,
}

/// One item of the result list as the browser reports it.
#[derive(Debug)]
pub struct RawItem {
    /// The item's attributes, names and values in turn.
    pub attributes: Vec<String>,
    /// The links inside the item, in document order.
    pub anchors: Vec<Anchor>,
}

/// Why a result item that looks like a paper could not be read.
#[derive(Clone, Copy, Debug, PartialEq, Eq, Structural)]
pub enum Malformed {
    /// The item has fewer than two links: title and journal are not both there.
    Anchors,
    /// The markup of the first link has fewer than three double quotes, so no
    /// address stands in its usual place.
    Href,
}

/// The search site: where it lives and how a query is put to it.
#[derive(Debug)]
pub struct SearchSite {
    pub domain_string: String,
    pub base_query_string: String,
    pub blank_token: String,
    pub max_indices_per_page: usize,
}

/// The mathematical content of a `SearchSite`.
pub struct SearchSiteView {
    pub domain: Seq<char>,
    pub base_query: Seq<char>,
    pub blank_token: Seq<char>,
    pub per_page: nat,
}

impl View for SearchSite {
    type V = SearchSiteView;

    open spec fn view(&self) -> SearchSiteView {
        SearchSiteView {
            domain: self.domain_string@,
            base_query: self.base_query_string@,
            blank_token: self.blank_token@,
            per_page: self.max_indices_per_page as nat,
        }
    }
}

impl SearchSiteView {
    /// The address of the result page for `keyword`: the words of the term
    /// joined by the blank token, as many results as a page takes, newest
    /// first.
    pub open spec fn query(self, keyword: Seq<char>) -> Seq<char> {
        self.base_query + join(words(keyword), self.blank_token) + "&show="@ + decimal_text(
            self.per_page,
        ) + "&sortBy=date"@
    }

    /// The selector of the last item of a full result page.
    pub open spec fn last_item(self) -> Seq<char> {
        "#srp-results-list > ol > li:nth-child("@ + decimal_text(self.per_page) + ")"@
    }

    /// The paper that `item`, found under `keyword`, stands for. An item
    /// that does not carry exactly four attribute entries is no paper. The
    /// paper's address is the site's domain followed by what stands between
    /// the third and the fourth double quote of the first link's markup.
    pub open spec fn paper(
        self,
        keyword: Seq<char>,
        attributes: nat,
        anchors: Seq<(Seq<char>, Seq<char>)>,
    ) -> Result<Option<PaperView>, Malformed> {
        if attributes != 4 {
            Ok(None)
        } else if anchors.len() < 2 {
            Err(Malformed::Anchors)
        } else {
            match field(anchors[0].0, '"', 3) {
                None => Err(Malformed::Href),
                Some(path) => Ok(
                    Some(
                        PaperView {
                            keyword,
                            title: anchors[0].1,
                            journal: anchors[1].1,
                            href: self.domain + path,
                        },
                    ),
                ),
            }
        }
    }
}

/// Markup and text of each link.
pub open spec fn anchor_views(anchors: Seq<Anchor>) -> Seq<(Seq<char>, Seq<char>)> {
    Seq::new(anchors.len(), |i: int| (anchors[i].content@, anchors[i].inner_text@))
}

impl SearchSite {
    /// ScienceDirect, fifty results to a page.
    pub fn science_direct() -> (r: SearchSite)
        ensures
            r@ == (SearchSiteView {
                domain: "https://www.sciencedirect.com/"@,
                base_query: "https://www.sciencedirect.com/search?qs="@,
                blank_token: "%20"@,
                per_page: 50,
            }),
    {
        SearchSite {
            domain_string: String::from_str("https://www.sciencedirect.com/"),
            base_query_string: String::from_str("https://www.sciencedirect.com/search?qs="),
            blank_token: String::from_str("%20"),
            max_indices_per_page: 50,
        }
    }

    /// The address of the result page for `keyword`.
    pub fn query_from_keyword(&self, keyword: &str) -> (r: String)
        ensures
            r@ == self@.query(keyword@),
    {
        let token = split_words(keyword);
        let search_keyword = join_texts(&token, self.blank_token.as_str());
        let mut query = self.base_query_string.clone();
        query.append(search_keyword.as_str());
        query.append("&show=");
        query.append(render_decimal(self.max_indices_per_page as u64).as_str());
        query.append("&sortBy=date");
        query
    }

    /// The selector of the list that holds the results.
    pub fn result_list(&self) -> (r: &'static str)
        ensures
            r@ == "#srp-results-list"@,
    {
        "#srp-results-list"
    }

    /// The selector of the last item of a full result page: once it is
    /// there, the page has loaded.
    pub fn last_element(&self) -> (r: String)
        ensures
            r@ == self@.last_item(),
    {
        let mut r = String::from_str("#srp-results-list > ol > li:nth-child(");
        r.append(render_decimal(self.max_indices_per_page as u64).as_str());
        r.append(")");
        r
    }

    /// Reads the paper that `item`, found under `keyword`, stands for.
    pub fn parse(&self, item: &RawItem, keyword: &str) -> (r: Result<Option<Paper>, Malformed>)
        ensures
            match self@.paper(keyword@, item.attributes.len() as nat, anchor_views(item.anchors@)) {
                Ok(Some(p)) => r is Ok && r->Ok_0 is Some && r->Ok_0->0@ == p,
                Ok(None) => r == Ok::<Option<Paper>, Malformed>(None),
                Err(e) => r == Err::<Option<Paper>, Malformed>(e),
            },
    {
        if item.attributes.len() != 4 {
            return Ok(None);
        }
        if item.anchors.len() < 2 {
            return Err(Malformed::Anchors);
        }
        let path = match nth_field(item.anchors[0].content.as_str(), '"', 3) {
            None => {
                return Err(Malformed::Href);
            },
            Some(path) => path,
        };
        let mut href = self.domain_string.clone();
        href.append(path.as_str());
        Ok(
            Some(
                Paper {
                    title: item.anchors[0].inner_text.clone(),
                    href,
                    keyword: String::from_str(keyword),
                    journal: item.anchors[1].inner_text.clone(),
                },
            ),
        )
    }
}

} // verus!
