//! Flat repository rows and the rule that renames language labels.

use crate::github::batch::{spec_judge, Report};
use crate::github::api::{Language, LanguageConnection, LicenseInfo, RepositoryConnection, RepositoryNode};
use vstd::prelude::*;
use vstd::string::*;

verus! {

/// The display name of a raw language label: "Dockerfile" is shown as
/// "Docker", every other label is shown as it is.
pub open spec fn spec_rename_language(language: Seq<char>) -> Seq<char> {
    if language == "Dockerfile"@ {
        "Docker"@
    } else {
        language
    }
}

/// Applies the alias rule to one language label.
pub fn rename_language(language: String) -> (renamed: String)
    ensures
        renamed@ == spec_rename_language(language@),
{
    let alias = String::from_str("Dockerfile");
    if language == alias {
        String::from_str("Docker")
    } else {
        language
    }
}

/// A 64-bit count cut down to its low 32 bits, read as a signed number.
pub open spec fn spec_stars(count: i64) -> int {
    (count + 0x8000_0000) % 0x1_0000_0000 - 0x8000_0000
}

/// One row of the repository table. Its key is `(owner, name)`.
#[derive(Debug, Clone)]
pub struct Repository {
    pub name: String,
    pub owner: String,
    pub license: String,
    pub license_id: String,
    pub url: String,
    pub stars: i32,
    pub primary_language: String,
    pub languages: Vec<String>,
    pub created_at: String,
}

/// The statement that writes a row of the repository table: it inserts the
/// row, and where a row with the same owner and name is there already, it
/// overwrites every other column of that row. Its parameters are the row's
/// name, owner, license, license id, stars, primary language, languages,
/// date of creation and url, in this order.
pub const UPSERT_REPOSITORY: &'static str =
    "insert into repository (name, owner, license, license_id, stars, primary_language, languages, created_at, url) values ($1, $2, $3, $4, $5, $6, $7, $8, $9) on conflict (owner, name) do update set license = $3, license_id = $4, stars = $5, primary_language = $6, languages = $7, created_at = $8, url = $9";

/// What a row holds, as plain values.
pub struct RepositoryView {
    pub name: Seq<char>,
    pub owner: Seq<char>,
    pub license: Seq<char>,
    pub license_id: Seq<char>,
    pub url: Seq<char>,
    pub stars: int,
    pub primary_language: Seq<char>,
    pub languages: Seq<Seq<char>>,
    pub created_at: Seq<char>,
}

/// The texts of a list of strings.
pub open spec fn texts(strings: Seq<String>) -> Seq<Seq<char>> {
    Seq::new(strings.len(), |i: int| strings[i]@)
}

impl View for Repository {
    type V = RepositoryView;

    open spec fn view(&self) -> RepositoryView {
        RepositoryView {
            name: self.name@,
            owner: self.owner@,
            license: self.license@,
            license_id: self.license_id@,
            url: self.url@,
            stars: self.stars as int,
            primary_language: self.primary_language@,
            languages: texts(self.languages@),
            created_at: self.created_at@,
        }
    }
}

/// Why a list of nodes yields no rows.
#[derive(Debug, Clone, Copy, PartialEq, Eq)]
pub enum MappingError {
    /// The answer holds no list of nodes.
    MissingNodes,
    /// A node of the list is null.
    NullNode,
}

/// Why a row counts as not written.
#[derive(Debug, Clone, Copy, PartialEq, Eq)]
pub enum UpsertError {
    /// The statement failed.
    StoreFailed,
    /// The statement ran and changed no row.
    NothingUpserted,
}

/// The license name of a row: that of the node, or "None".
pub open spec fn spec_license(license: Option<LicenseInfo>) -> Seq<char> {
    match license {
        Some(info) => info.name@,
        None => "None"@,
    }
}

/// The SPDX id of a row: that of the node's license, or "None" where the
/// license or its id is missing.
pub open spec fn spec_license_id(license: Option<LicenseInfo>) -> Seq<char> {
    match license {
        Some(info) => match info.spdx_id {
            Some(id) => id@,
            None => "None"@,
        },
        None => "None"@,
    }
}

/// The primary language of a row: the renamed primary language of the node,
/// or "Unknown".
pub open spec fn spec_primary_language(language: Option<Language>) -> Seq<char> {
    match language {
        Some(language) => spec_rename_language(language.name@),
        None => "Unknown"@,
    }
}

/// What one entry of a node's language list adds to a row whose primary
/// language is `primary`: its renamed label, unless the entry is null or the
/// label is `primary`.
pub open spec fn spec_label(entry: Option<Language>, primary: Seq<char>) -> Option<Seq<char>> {
    match entry {
        Some(language) => if spec_rename_language(language.name@) == primary {
            None
        } else {
            Some(spec_rename_language(language.name@))
        },
        None => None,
    }
}

/// The entries of a node's language list; a missing list has none.
pub open spec fn spec_entries(languages: Option<LanguageConnection>) -> Seq<Option<Language>> {
    match languages {
        Some(connection) => match connection.nodes {
            Some(nodes) => nodes@,
            None => Seq::empty(),
        },
        None => Seq::empty(),
    }
}

/// The other languages of a row: the labels that the entries add, in the
/// order of the entries.
pub open spec fn spec_languages(entries: Seq<Option<Language>>, primary: Seq<char>) -> Seq<Seq<char>> {
    entries.filter_map(|entry: Option<Language>| spec_label(entry, primary))
}

/// The row that a node is mapped to.
pub open spec fn spec_row(node: RepositoryNode) -> RepositoryView {
    RepositoryView {
        name: node.name@,
        owner: node.owner.login@,
        license: spec_license(node.license_info),
        license_id: spec_license_id(node.license_info),
        url: node.url@,
        stars: spec_stars(node.stargazer_count),
        primary_language: spec_primary_language(node.primary_language),
        languages: spec_languages(
            spec_entries(node.languages),
            spec_primary_language(node.primary_language),
        ),
        created_at: node.created_at@,
    }
}

/// Cuts a 64-bit count down to 32 bits.
pub fn narrow_stars(count: i64) -> (stars: i32)
    ensures
        stars as int == spec_stars(count),
{
    let stars: i32 = #[verifier::truncate]
    (count as i32);
    assert((count as i32) as int == (count + 0x8000_0000) % 0x1_0000_0000 - 0x8000_0000)
        by (bit_vector);
    stars
}

/// The labels that a list of entries adds to a row with the given primary
/// language.
pub fn other_languages(entries: &Vec<Option<Language>>, primary: &String) -> (labels: Vec<String>)
    ensures
        texts(labels@) == spec_languages(entries@, primary@),
{
    let ghost keep = |entry: Option<Language>| spec_label(entry, primary@);
    let mut labels: Vec<String> = Vec::new();
    let mut i: usize = 0;
    assert(entries@.take(0).filter_map(keep) =~= Seq::<Seq<char>>::empty());
    assert(texts(labels@) =~= Seq::<Seq<char>>::empty());
    while i < entries.len()
        invariant
            i <= entries.len(),
            keep == |entry: Option<Language>| spec_label(entry, primary@),
            texts(labels@) == entries@.take(i as int).filter_map(keep),
        decreases entries.len() - i,
    {
        let ghost before = labels@;
        proof {
            entries@.lemma_filter_map_take_succ(keep, i as int);
        }
        match &entries[i] {
            Some(language) => {
                let label = rename_language(language.name.clone());
                if label != *primary {
                    labels.push(label);
                    assert(texts(labels@) =~= texts(before) + seq![label@]);
                }
            },
            None => {},
        }
        i += 1;
    }
    assert(entries@.take(i as int) =~= entries@);
    labels
}

/// Whether `rows` holds the rows of the nodes of `repositories`, one per
/// node and in their order. This asks that the list is there and that none
/// of its nodes is null.
pub open spec fn maps_to(repositories: RepositoryConnection, rows: Seq<Repository>) -> bool {
    repositories.nodes matches Some(nodes) && rows.len() == nodes.len() && forall|i: int|
        #![trigger nodes@[i]]
        0 <= i < nodes.len() ==> (nodes@[i] is Some) && rows[i]@ == spec_row(nodes@[i].unwrap())
}

/// Whether the list of nodes is there and one of its nodes is null.
pub open spec fn has_null_node(repositories: RepositoryConnection) -> bool {
    repositories.nodes matches Some(nodes) && exists|i: int|
        0 <= i < nodes.len() && #[trigger] nodes@[i] is None
}

/// Whether mapping `repositories` fails with `error`.
pub open spec fn fails_with(repositories: RepositoryConnection, error: MappingError) -> bool {
    match error {
        MappingError::MissingNodes => repositories.nodes is None,
        MappingError::NullNode => has_null_node(repositories),
    }
}

impl Repository {
    /// Maps one node to its row.
    pub fn from_node(node: &RepositoryNode) -> (row: Repository)
        ensures
            row@ == spec_row(*node),
    {
        let primary_language = match &node.primary_language {
            Some(language) => rename_language(language.name.clone()),
            None => String::from_str("Unknown"),
        };
        let license = match &node.license_info {
            Some(info) => info.name.clone(),
            None => String::from_str("None"),
        };
        let license_id = match &node.license_info {
            Some(info) => match &info.spdx_id {
                Some(id) => id.clone(),
                None => String::from_str("None"),
            },
            None => String::from_str("None"),
        };
        let languages = match &node.languages {
            Some(connection) => match &connection.nodes {
                Some(entries) => other_languages(entries, &primary_language),
                None => Vec::new(),
            },
            None => Vec::new(),
        };
        proof {
            let keep = |entry: Option<Language>| spec_label(entry, primary_language@);
            assert(Seq::<Option<Language>>::empty().filter_map(keep) =~= Seq::<Seq<char>>::empty());
            assert(texts(Seq::<String>::empty()) =~= Seq::<Seq<char>>::empty());
        }
        Repository {
            name: node.name.clone(),
            owner: node.owner.login.clone(),
            license,
            license_id,
            url: node.url.clone(),
            stars: narrow_stars(node.stargazer_count),
            primary_language,
            languages,
            created_at: node.created_at.clone(),
        }
    }

    /// Maps the nodes of an answer to rows, one per node and in their order.
    /// Without a list of nodes, or with a null node anywhere in the list,
    /// there are no rows at all.
    pub fn from_query(repositories: &RepositoryConnection) -> (rows: Result<Vec<Repository>, MappingError>)
        ensures
            match rows {
                Ok(mapped) => maps_to(*repositories, mapped@),
                Err(error) => fails_with(*repositories, error),
            },
            has_null_node(*repositories) ==> rows == Err::<Vec<Repository>, MappingError>(
                MappingError::NullNode,
            ),
    {
        match &repositories.nodes {
            None => Err(MappingError::MissingNodes),
            Some(nodes) => {
                let mut rows: Vec<Repository> = Vec::new();
                let mut i: usize = 0;
                while i < nodes.len()
                    invariant
                        i <= nodes.len(),
                        rows.len() == i,
                        repositories.nodes == Some(*nodes),
                        forall|j: int|
                            #![trigger nodes@[j]]
                            0 <= j < i ==> (nodes@[j] is Some) && rows@[j]@ == spec_row(
                                nodes@[j].unwrap(),
                            ),
                    decreases nodes.len() - i,
                {
                    match &nodes[i] {
                        Some(node) => {
                            let row = Repository::from_node(node);
                            rows.push(row);
                        },
                        None => {
                            return Err(MappingError::NullNode);
                        },
                    }
                    i += 1;
                }
                Ok(rows)
            },
        }
    }

    /// Judges what the store reports of the statement that wrote this row:
    /// a statement that failed, or that ran and changed no row, has not
    /// written it.
    pub fn upsert(&self, report: Report) -> (outcome: Result<(), UpsertError>)
        ensures
            outcome == spec_judge(report),
    {
        match report {
            Report::RowsAffected(rows) => if rows > 0 {
                Ok(())
            } else {
                Err(UpsertError::NothingUpserted)
            },
            Report::Failed => Err(UpsertError::StoreFailed),
        }
    }
}

/// The key of a row in the table.
pub open spec fn spec_key(row: RepositoryView) -> (Seq<char>, Seq<char>) {
    (row.owner, row.name)
}

/// The table that the statement which writes `row` asks the store for:
/// `row` stands under its key, in place of what stood there, and every other
/// row is as it was.
pub open spec fn spec_upsert(
    table: Map<(Seq<char>, Seq<char>), RepositoryView>,
    row: RepositoryView,
) -> Map<(Seq<char>, Seq<char>), RepositoryView> {
    table.insert(spec_key(row), row)
}

/// Writing a row a second time changes nothing: the table holds the row
/// under its key after the first time, and is the same table after the
/// second.
pub proof fn lemma_upsert_idempotent(
    table: Map<(Seq<char>, Seq<char>), RepositoryView>,
    row: RepositoryView,
)
    ensures
        spec_upsert(table, row)[spec_key(row)] == row,
        spec_upsert(spec_upsert(table, row), row) == spec_upsert(table, row),
{
    assert(spec_upsert(spec_upsert(table, row), row) =~= spec_upsert(table, row));
}

/// A label that an entry adds is among the other languages.
proof fn lemma_label_kept(entries: Seq<Option<Language>>, primary: Seq<char>, i: int)
    requires
        0 <= i < entries.len(),
        spec_label(entries[i], primary) is Some,
    ensures
        spec_languages(entries, primary).contains(spec_label(entries[i], primary).unwrap()),
    decreases entries.len(),
{
    let keep = |entry: Option<Language>| spec_label(entry, primary);
    let label = spec_label(entries[i], primary).unwrap();
    let rest = entries.drop_last();
    if i == entries.len() - 1 {
        let kept = rest.filter_map(keep) + seq![label];
        assert(kept[kept.len() - 1] == label);
    } else {
        lemma_label_kept(rest, primary, i);
        let earlier = rest.filter_map(keep);
        let at = choose|k: int| 0 <= k < earlier.len() && earlier[k] == label;
        match keep(entries.last()) {
            Some(last) => {
                assert((earlier + seq![last])[at] == label);
            },
            None => {},
        }
    }
}

/// The other languages of a row never hold its primary language.
pub proof fn lemma_languages_exclude_primary(node: RepositoryNode)
    ensures
        !spec_row(node).languages.contains(spec_row(node).primary_language),
{
    let primary = spec_primary_language(node.primary_language);
    let entries = spec_entries(node.languages);
    let keep = |entry: Option<Language>| spec_label(entry, primary);
    if entries.filter_map(keep).contains(primary) {
        entries.lemma_filter_map_contains(keep, primary);
    }
}

/// No row names the language "Dockerfile": a node whose primary language is
/// "Dockerfile" gets the primary language "Docker", and an entry "Dockerfile"
/// of its language list puts "Docker" among the other languages, unless
/// "Docker" is the row's primary language.
pub proof fn lemma_alias_applied(node: RepositoryNode)
    ensures
        spec_row(node).primary_language != "Dockerfile"@,
        !spec_row(node).languages.contains("Dockerfile"@),
        node.primary_language matches Some(language) && language.name@ == "Dockerfile"@
            ==> spec_row(node).primary_language == "Docker"@,
        forall|i: int|
            #![trigger spec_entries(node.languages)[i]]
            0 <= i < spec_entries(node.languages).len() && spec_row(node).primary_language
                != "Docker"@ && (spec_entries(node.languages)[i] matches Some(language)
                && language.name@ == "Dockerfile"@) ==> spec_row(node).languages.contains(
                "Docker"@,
            ),
{
    reveal_strlit("Dockerfile");
    reveal_strlit("Docker");
    reveal_strlit("Unknown");
    let primary = spec_primary_language(node.primary_language);
    let entries = spec_entries(node.languages);
    let keep = |entry: Option<Language>| spec_label(entry, primary);
    assert("Dockerfile"@.len() == 10);
    assert("Docker"@.len() == 6);
    assert("Unknown"@.len() == 7);
    if entries.filter_map(keep).contains("Dockerfile"@) {
        entries.lemma_filter_map_contains(keep, "Dockerfile"@);
    }
    assert forall|i: int|
        #![trigger entries[i]]
        0 <= i < entries.len() && primary != "Docker"@ && (entries[i] matches Some(language)
            && language.name@ == "Dockerfile"@) implies spec_languages(entries, primary).contains(
        "Docker"@,
    ) by {
        lemma_label_kept(entries, primary, i);
    }
}

/// A node without a license gets the license "None" and the license id
/// "None"; one without a primary language gets the primary language
/// "Unknown".
pub proof fn lemma_missing_defaults(node: RepositoryNode)
    ensures
        node.license_info is None ==> spec_row(node).license == "None"@ && spec_row(
            node,
        ).license_id == "None"@,
        node.primary_language is None ==> spec_row(node).primary_language == "Unknown"@,
{
}

} // verus!
