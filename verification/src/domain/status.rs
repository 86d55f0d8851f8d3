use vstd::prelude::*;
use vstd::string::StringExecFns;

verus! {

/// Category membership of one reported path. A path may legitimately belong
/// to several categories at once (for example staged and unstaged when it is
/// partially staged), so membership is a set of tags, not a single variant.
#[derive(Clone, Copy, Debug, PartialEq)]
pub struct StatusTags {
    pub staged: bool,
    pub unstaged: bool,
    pub untracked: bool,
    pub conflicted: bool,
}

/// One classified path from a repository's status report. `old_path` is
/// populated only when the backend reports a rename origin.
#[derive(Clone, Debug, PartialEq)]
pub struct StatusItem {
    pub path: String,
    pub status: StatusTags,
    pub old_path: Option<String>,
}

/// The four-way categorization of a repository's working tree and index:
/// four ordered sequences of items, one per category.
#[derive(Clone, Debug)]
pub struct RepoStatus {
    pub staged: Vec<StatusItem>,
    pub unstaged: Vec<StatusItem>,
    pub untracked: Vec<StatusItem>,
    pub conflicted: Vec<StatusItem>,
}

impl RepoStatus {
    /// Total number of classified entries, counted across all four
    /// categories (an entry in two categories counts twice).
    pub open spec fn total_spec(&self) -> int {
        self.staged@.len() + self.unstaged@.len() + self.untracked@.len()
            + self.conflicted@.len() as int
    }

    /// An empty status report: all four categories empty.
    pub fn new() -> (r: RepoStatus)
        ensures
            r.staged@.len() == 0,
            r.unstaged@.len() == 0,
            r.untracked@.len() == 0,
            r.conflicted@.len() == 0,
            r.total_spec() == 0,
    {
        RepoStatus {
            staged: Vec::new(),
            unstaged: Vec::new(),
            untracked: Vec::new(),
            conflicted: Vec::new(),
        }
    }

    /// The sum of the four category lengths.
    pub fn total_count(&self) -> (r: usize)
        requires
            self.total_spec() <= usize::MAX,
        ensures
            r == self.total_spec(),
    {
        self.staged.len() + self.unstaged.len() + self.untracked.len()
            + self.conflicted.len()
    }

    /// True exactly when some category is non-empty, i.e. when the total
    /// count is positive.
    pub fn has_changes(&self) -> (r: bool)
        ensures
            r == (self.total_spec() > 0),
    {
        self.staged.len() > 0 || self.unstaged.len() > 0 || self.untracked.len() > 0
            || self.conflicted.len() > 0
    }
}

/// The conventional-commit kind of a suggested commit message.
#[derive(Clone, Copy, Debug, PartialEq, Eq, Structural)]
pub enum CommitType {
    Feat,
    Fix,
    Docs,
    Style,
    Refactor,
    Perf,
    Test,
    Chore,
}

impl CommitType {
    /// The keyword that labels this commit kind in a message header.
    pub open spec fn label(self) -> Seq<char> {
        match self {
            CommitType::Feat => "feat"@,
            CommitType::Fix => "fix"@,
            CommitType::Docs => "docs"@,
            CommitType::Style => "style"@,
            CommitType::Refactor => "refactor"@,
            CommitType::Perf => "perf"@,
            CommitType::Test => "test"@,
            CommitType::Chore => "chore"@,
        }
    }

    /// The conventional-commit keyword for this kind.
    pub fn as_str(&self) -> (r: &'static str)
        ensures
            r@ == self.label(),
    {
        match self {
            CommitType::Feat => "feat",
            CommitType::Fix => "fix",
            CommitType::Docs => "docs",
            CommitType::Style => "style",
            CommitType::Refactor => "refactor",
            CommitType::Perf => "perf",
            CommitType::Test => "test",
            CommitType::Chore => "chore",
        }
    }
}

/// The header of a suggested commit message: the kind's keyword, an
/// optional parenthesized scope, a colon and the description.
pub open spec fn header_spec(t: CommitType, scope: Option<Seq<char>>, desc: Seq<char>) -> Seq<
    char,
> {
    match scope {
        Option::Some(s) => t.label() + "("@ + s + ")"@ + ": "@ + desc,
        Option::None => t.label() + ": "@ + desc,
    }
}

/// The full formatted message: the header, then, when a body is present,
/// a blank line and the body.
pub open spec fn formatted_spec(
    t: CommitType,
    scope: Option<Seq<char>>,
    desc: Seq<char>,
    body: Option<Seq<char>>,
) -> Seq<char> {
    match body {
        Option::Some(b) => header_spec(t, scope, desc) + "\n\n"@ + b,
        Option::None => header_spec(t, scope, desc),
    }
}

/// A suggested commit message in conventional-commit form; `formatted`
/// always holds the rendering of the other fields.
#[derive(Clone, Debug)]
pub struct CommitSuggestion {
    pub commit_type: CommitType,
    pub description: String,
    pub scope: Option<String>,
    pub body: Option<String>,
    pub formatted: String,
}

impl CommitSuggestion {
    /// The view of an optional string.
    pub open spec fn opt_view(o: Option<String>) -> Option<Seq<char>> {
        match o {
            Option::Some(s) => Option::Some(s@),
            Option::None => Option::None,
        }
    }

    /// `formatted` is the rendering of the other four fields.
    pub open spec fn wf(&self) -> bool {
        self.formatted@ == formatted_spec(
            self.commit_type,
            Self::opt_view(self.scope),
            self.description@,
            Self::opt_view(self.body),
        )
    }

    /// A fresh suggestion with no scope and no body.
    pub fn new(t: CommitType, description: &str) -> (r: CommitSuggestion)
        ensures
            r.commit_type == t,
            r.description@ == description@,
            r.scope is None,
            r.body is None,
            r.wf(),
    {
        let formatted = render(t, &None, description, &None);
        CommitSuggestion {
            commit_type: t,
            description: description.to_owned(),
            scope: None,
            body: None,
            formatted,
        }
    }

    /// The same suggestion with the given scope, re-rendered.
    pub fn with_scope(self, scope: &str) -> (r: CommitSuggestion)
        ensures
            r.commit_type == self.commit_type,
            r.description@ == self.description@,
            r.scope matches Some(s) && s@ == scope@,
            r.body == self.body,
            r.wf(),
    {
        let formatted = render(self.commit_type, &Some(scope.to_owned()), self.description.as_str(), &self.body);
        CommitSuggestion {
            commit_type: self.commit_type,
            description: self.description,
            scope: Some(scope.to_owned()),
            body: self.body,
            formatted,
        }
    }

    /// The same suggestion with the given body, re-rendered.
    pub fn with_body(self, body: &str) -> (r: CommitSuggestion)
        ensures
            r.commit_type == self.commit_type,
            r.description@ == self.description@,
            r.scope == self.scope,
            r.body matches Some(b) && b@ == body@,
            r.wf(),
    {
        let formatted = render(self.commit_type, &self.scope, self.description.as_str(), &Some(body.to_owned()));
        CommitSuggestion {
            commit_type: self.commit_type,
            description: self.description,
            scope: self.scope,
            body: Some(body.to_owned()),
            formatted,
        }
    }
}

/// Render a conventional-commit message from its parts.
fn render(t: CommitType, scope: &Option<String>, desc: &str, body: &Option<String>) -> (r:
    String)
    ensures
        r@ == formatted_spec(
            t,
            CommitSuggestion::opt_view(*scope),
            desc@,
            CommitSuggestion::opt_view(*body),
        ),
{
    let mut s = t.as_str().to_owned();
    match scope {
        Some(sc) => {
            s.append("(");
            s.append(sc.as_str());
            s.append(")");
        },
        None => {},
    }
    s.append(": ");
    s.append(desc);
    match body {
        Some(b) => {
            s.append("\n\n");
            s.append(b.as_str());
        },
        None => {},
    }
    proof {
        assert(s@ =~= formatted_spec(
            t,
            CommitSuggestion::opt_view(*scope),
            desc@,
            CommitSuggestion::opt_view(*body),
        ));
    }
    s
}

} // verus!
