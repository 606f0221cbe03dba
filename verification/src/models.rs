//! The records of a search result and the widths of the table that shows them.

use std::collections::HashMap;
use vstd::prelude::*;

verus! {

/// One package that matched the search, as the registry describes it.
#[derive(Debug, Clone)]
pub struct Crate {
    pub id: String,
    pub name: String,
    pub description: Option<String>,
    pub license: Option<String>,
    pub documentation: Option<String>,
    pub homepage: Option<String>,
    pub repository: Option<String>,
    pub downloads: u64,
    pub recent_downloads: Option<u64>,
    pub categories: Option<Vec<String>>,
    pub keywords: Option<Vec<String>>,
    pub versions: Option<Vec<u64>>,
    pub max_version: String,
    /// Absent when the package has no stable release.
    pub max_stable_version: Option<String>,
    pub links: HashMap<String, String>,
    /// The time of creation, as text.
    pub created_at: String,
    /// The time of the last change, as text.
    pub updated_at: String,
    pub exact_match: Option<bool>,
}

/// The answer of the registry to one search: the matches, in its order.
#[derive(Debug, Clone)]
pub struct ApiResponse {
    pub crates: Vec<Crate>,
}

/// One display width per column, in bytes.
#[derive(Debug, Clone, Copy, PartialEq, Eq)]
pub struct Length {
    pub id: usize,
    pub name: usize,
    pub max_version: usize,
    pub max_stable_version: usize,
    pub updated_at: usize,
}

/// The columns that a width is kept for.
#[derive(Debug, Clone, Copy, PartialEq, Eq)]
pub enum Column {
    Id,
    Name,
    MaxVersion,
    MaxStableVersion,
    UpdatedAt,
}

/// What a [`Length`] stands for: one width per column, as numbers without bound.
pub struct Widths {
    pub id: nat,
    pub name: nat,
    pub max_version: nat,
    pub max_stable_version: nat,
    pub updated_at: nat,
}

/// What the table reads of a [`Crate`]: the text of each of its columns.
pub struct Record {
    pub id: Seq<char>,
    pub name: Seq<char>,
    pub max_version: Seq<char>,
    pub max_stable_version: Option<Seq<char>>,
    pub updated_at: Seq<char>,
}

impl Column {
    /// The label that heads the column.
    pub open spec fn label(self) -> Seq<char> {
        match self {
            Column::Id => "id"@,
            Column::Name => "name"@,
            Column::MaxVersion => "max_version"@,
            Column::MaxStableVersion => "max_stable_version"@,
            Column::UpdatedAt => "updated_at"@,
        }
    }

    /// Whether the table shows the column.
    pub open spec fn shown(self) -> bool {
        self is Name || self is MaxStableVersion || self is UpdatedAt
    }

    /// The label that heads the column.
    pub fn header(self) -> (label: &'static str)
        ensures
            label@ == self.label(),
    {
        match self {
            Column::Id => "id",
            Column::Name => "name",
            Column::MaxVersion => "max_version",
            Column::MaxStableVersion => "max_stable_version",
            Column::UpdatedAt => "updated_at",
        }
    }
}

impl Record {
    /// The text that stands in column `col`: the field as it is, and the empty
    /// text for a stable version that is absent.
    pub open spec fn cell(self, col: Column) -> Seq<char> {
        match col {
            Column::Id => self.id,
            Column::Name => self.name,
            Column::MaxVersion => self.max_version,
            Column::MaxStableVersion => match self.max_stable_version {
                Some(version) => version,
                None => Seq::empty(),
            },
            Column::UpdatedAt => self.updated_at,
        }
    }
}

/// The view keeps the five texts that a column can hold. The other fields
/// describe the package and are carried along unread.
impl View for Crate {
    type V = Record;

    open spec fn view(&self) -> Record {
        Record {
            id: self.id@,
            name: self.name@,
            max_version: self.max_version@,
            max_stable_version: match self.max_stable_version {
                Some(version) => Some(version@),
                None => None,
            },
            updated_at: self.updated_at@,
        }
    }
}

impl DeepView for Crate {
    type V = Record;

    open spec fn deep_view(&self) -> Record {
        self@
    }
}

impl Crate {
    /// The text that stands in column `col`.
    pub fn cell(&self, col: Column) -> (text: &str)
        ensures
            text@ == self@.cell(col),
    {
        proof {
            reveal_strlit("");
            assert(""@ =~= Seq::<char>::empty());
        }
        match col {
            Column::Id => self.id.as_str(),
            Column::Name => self.name.as_str(),
            Column::MaxVersion => self.max_version.as_str(),
            Column::MaxStableVersion => match &self.max_stable_version {
                Some(version) => version.as_str(),
                None => "",
            },
            Column::UpdatedAt => self.updated_at.as_str(),
        }
    }
}

impl Widths {
    /// The width kept for column `col`.
    pub open spec fn of(self, col: Column) -> nat {
        match col {
            Column::Id => self.id,
            Column::Name => self.name,
            Column::MaxVersion => self.max_version,
            Column::MaxStableVersion => self.max_stable_version,
            Column::UpdatedAt => self.updated_at,
        }
    }
}

impl View for Length {
    type V = Widths;

    open spec fn view(&self) -> Widths {
        Widths {
            id: self.id as nat,
            name: self.name as nat,
            max_version: self.max_version as nat,
            max_stable_version: self.max_stable_version as nat,
            updated_at: self.updated_at as nat,
        }
    }
}

} // verus!
