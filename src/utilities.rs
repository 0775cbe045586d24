use vstd::prelude::*;

verus! {

/// Licence under which a page or revision is published.
#[derive(Clone, Debug)]
pub struct LicenseModel {
    pub url: String,
    pub title: String,
}

/// A revision identifier with its timestamp, as the API reports the latest revision.
#[derive(Clone, Debug)]
pub struct RevisionTimestamp {
    pub id: usize,
    pub timestamp: String,
}

/// The form in which page HTML is requested.
#[derive(Copy, Clone, Debug, PartialEq, Eq, Structural)]
pub enum HtmlFlavor {
    View,
    Stash,
    Fragment,
    Edit,
}

/// A link to the same page in another language.
#[derive(Clone, Debug)]
pub struct LanguageLink {
    pub code: String,
    pub name: String,
    pub key: String,
    pub title: String,
}

/// A user as the API reports it; anonymous users have no id.
#[derive(Clone, Debug)]
pub struct UserInfo {
    pub id: Option<usize>,
    pub name: String,
}

/// The latest revision of a file.
#[derive(Clone, Debug)]
pub struct FileRevision {
    pub timestamp: String,
    pub user: UserInfo,
}

/// The template a lint finding comes from.
#[derive(Clone, Debug)]
pub struct TemplateInfo {
    pub name: String,
}

/// Basic information on a page.
#[derive(Clone, Debug)]
pub struct PageInfo {
    pub id: usize,
    pub key: String,
    pub title: String,
}

/// Information on one revision.
#[derive(Clone, Debug)]
pub struct RevisionInfo {
    pub id: usize,
    pub size: usize,
    pub delta: isize,
    pub comment: String,
    pub minor: bool,
    pub timestamp: String,
    pub content_model: String,
    pub page: PageInfo,
    pub license: LicenseModel,
    pub user: UserInfo,
}

/// Offsets of a diff line in the two revisions compared.
#[derive(Clone, Copy, Debug)]
pub struct DiffOffset {
    pub from: Option<usize>,
    pub to: Option<usize>,
}

/// One line of a diff.
#[derive(Clone, Debug)]
pub struct DiffInfo {
    pub line_number: Option<usize>,
    pub offset: DiffOffset,
    pub text: String,
    pub type_id: usize,
}

/// A section heading of a compared revision.
#[derive(Clone, Debug)]
pub struct DiffSection {
    pub heading: String,
    pub level: usize,
    pub offset: usize,
}

/// The sections of one side of a comparison.
#[derive(Clone, Debug)]
pub struct DiffSections {
    pub id: usize,
    pub sections: Vec<DiffSection>,
    pub slot_role: String,
}

/// The comparison of two revisions.
#[derive(Clone, Debug)]
pub struct Diff {
    pub diff: Vec<DiffInfo>,
    pub from: DiffSections,
    pub to: DiffSections,
}

/// Filter of a page history listing.
#[derive(Clone, Copy, Debug, PartialEq, Eq, Structural)]
pub enum Filter {
    Anonymous,
    Bot,
    Reverted,
    Minor,
}

/// Filter of a page history count.
#[derive(Clone, Copy, Debug, PartialEq, Eq, Structural)]
pub enum HistoryFilterExtended {
    Anonymous,
    Temporary,
    Bot,
    Editors,
    Edits,
    Minor,
    Reverted,
    AnonEdits,
    BotEdits,
    RevertedEdits,
}

/// One revision of a page history listing.
#[derive(Clone, Debug)]
pub struct HistoryRevisionInfo {
    pub id: usize,
    pub size: usize,
    pub delta: isize,
    pub comment: String,
    pub minor: bool,
    pub timestamp: String,
    pub user: UserInfo,
}

/// A page history listing, with the links to the neighbouring listings.
#[derive(Clone, Debug)]
pub struct History {
    pub revisions: Vec<HistoryRevisionInfo>,
    pub latest: Option<String>,
    pub older: Option<String>,
}

/// A count of history entries; `limit` tells that the count was capped.
#[derive(Clone, Copy, Debug)]
pub struct HistoryCounts {
    pub count: usize,
    pub limit: bool,
}

/// A token made of lower-case ASCII letters only, and not empty.
pub open spec fn is_lower_token(s: Seq<char>) -> bool {
    s.len() > 0 && forall|i: int| 0 <= i < s.len() ==> 'a' <= #[trigger] s[i] <= 'z'
}

impl HtmlFlavor {
    /// The token that the API expects for this flavor.
    pub open spec fn text(self) -> Seq<char> {
        match self {
            HtmlFlavor::View => seq!['v', 'i', 'e', 'w'],
            HtmlFlavor::Stash => seq!['s', 't', 'a', 's', 'h'],
            HtmlFlavor::Fragment => seq!['f', 'r', 'a', 'g', 'm', 'e', 'n', 't'],
            HtmlFlavor::Edit => seq!['e', 'd', 'i', 't'],
        }
    }

    /// The token that the API expects for this flavor.
    pub fn as_str(&self) -> (r: &'static str)
        ensures
            r@ == self.text(),
    {
        proof {
            reveal_strlit("view");
            reveal_strlit("stash");
            reveal_strlit("fragment");
            reveal_strlit("edit");
        }
        let r = match self {
            HtmlFlavor::View => "view",
            HtmlFlavor::Stash => "stash",
            HtmlFlavor::Fragment => "fragment",
            HtmlFlavor::Edit => "edit",
        };
        assert(r@ =~= self.text());
        r
    }

    /// The token that the API expects for this flavor, as a `String`.
    pub fn to_string(&self) -> (r: String)
        ensures
            r@ == self.text(),
    {
        String::from_str(self.as_str())
    }
}

impl Filter {
    /// The token that the API expects for this filter.
    pub open spec fn text(self) -> Seq<char> {
        match self {
            Filter::Anonymous => seq!['a', 'n', 'o', 'n', 'y', 'm', 'o', 'u', 's'],
            Filter::Bot => seq!['b', 'o', 't'],
            Filter::Reverted => seq!['r', 'e', 'v', 'e', 'r', 't', 'e', 'd'],
            Filter::Minor => seq!['m', 'i', 'n', 'o', 'r'],
        }
    }

    /// The token that the API expects for this filter.
    pub fn as_str(&self) -> (r: &'static str)
        ensures
            r@ == self.text(),
    {
        proof {
            reveal_strlit("anonymous");
            reveal_strlit("bot");
            reveal_strlit("reverted");
            reveal_strlit("minor");
        }
        let r = match self {
            Filter::Anonymous => "anonymous",
            Filter::Bot => "bot",
            Filter::Reverted => "reverted",
            Filter::Minor => "minor",
        };
        assert(r@ =~= self.text());
        r
    }

    /// The token that the API expects for this filter, as a `String`.
    pub fn to_string(&self) -> (r: String)
        ensures
            r@ == self.text(),
    {
        String::from_str(self.as_str())
    }
}

impl HistoryFilterExtended {
    /// The token that the API expects for this filter.
    pub open spec fn text(self) -> Seq<char> {
        match self {
            HistoryFilterExtended::Anonymous => seq!['a', 'n', 'o', 'n', 'y', 'm', 'o', 'u', 's'],
            HistoryFilterExtended::Temporary => seq!['t', 'e', 'm', 'p', 'o', 'r', 'a', 'r', 'y'],
            HistoryFilterExtended::Bot => seq!['b', 'o', 't'],
            HistoryFilterExtended::Editors => seq!['e', 'd', 'i', 't', 'o', 'r', 's'],
            HistoryFilterExtended::Edits => seq!['e', 'd', 'i', 't', 's'],
            HistoryFilterExtended::Minor => seq!['m', 'i', 'n', 'o', 'r'],
            HistoryFilterExtended::Reverted => seq!['r', 'e', 'v', 'e', 'r', 't', 'e', 'd'],
            HistoryFilterExtended::AnonEdits => seq!['a', 'n', 'o', 'n', 'e', 'd', 'i', 't', 's'],
            HistoryFilterExtended::BotEdits => seq!['b', 'o', 't', 'e', 'd', 'i', 't', 's'],
            HistoryFilterExtended::RevertedEdits => seq![
                'r', 'e', 'v', 'e', 'r', 't', 'e', 'd', 'e', 'd', 'i', 't', 's',
            ],
        }
    }

    /// The token that the API expects for this filter.
    pub fn as_str(&self) -> (r: &'static str)
        ensures
            r@ == self.text(),
    {
        proof {
            reveal_strlit("anonymous");
            reveal_strlit("temporary");
            reveal_strlit("bot");
            reveal_strlit("editors");
            reveal_strlit("edits");
            reveal_strlit("minor");
            reveal_strlit("reverted");
            reveal_strlit("anonedits");
            reveal_strlit("botedits");
            reveal_strlit("revertededits");
        }
        let r = match self {
            HistoryFilterExtended::Anonymous => "anonymous",
            HistoryFilterExtended::Temporary => "temporary",
            HistoryFilterExtended::Bot => "bot",
            HistoryFilterExtended::Editors => "editors",
            HistoryFilterExtended::Edits => "edits",
            HistoryFilterExtended::Minor => "minor",
            HistoryFilterExtended::Reverted => "reverted",
            HistoryFilterExtended::AnonEdits => "anonedits",
            HistoryFilterExtended::BotEdits => "botedits",
            HistoryFilterExtended::RevertedEdits => "revertededits",
        };
        assert(r@ =~= self.text());
        r
    }

    /// The token that the API expects for this filter, as a `String`.
    pub fn to_string(&self) -> (r: String)
        ensures
            r@ == self.text(),
    {
        String::from_str(self.as_str())
    }
}

/// Every flavor has its own token, made of lower-case letters.
pub proof fn lemma_html_flavor_tokens(a: HtmlFlavor, b: HtmlFlavor)
    ensures
        is_lower_token(a.text()),
        a.text() == b.text() ==> a == b,
{
    if a.text() == b.text() && a != b {
        assert(a.text()[0] != b.text()[0] || a.text().len() != b.text().len());
    }
}

/// Every history filter has its own token, made of lower-case letters.
pub proof fn lemma_filter_tokens(a: Filter, b: Filter)
    ensures
        is_lower_token(a.text()),
        a.text() == b.text() ==> a == b,
{
    if a.text() == b.text() && a != b {
        assert(a.text()[0] != b.text()[0] || a.text().len() != b.text().len());
    }
}

/// Every history count filter has its own token, made of lower-case letters.
pub proof fn lemma_history_filter_tokens(a: HistoryFilterExtended, b: HistoryFilterExtended)
    ensures
        is_lower_token(a.text()),
        a.text() == b.text() ==> a == b,
{
    if a.text() == b.text() && a != b {
        assert(a.text()[0] != b.text()[0] || a.text().len() != b.text().len()
            || a.text()[4] != b.text()[4]);
    }
}

} // verus!
