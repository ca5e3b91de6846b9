//! Entry normalization and collection building.
//!
//! A raw entry is a loosely-typed record: each field may be missing.
//! Normalization extracts every target field independently. The author
//! list and the title are required — without them an entry is not
//! displayable and normalization fails with [`EntryRejected`]. Every
//! other field is cosmetic: its absence, or a failed date or file
//! decode, degrades only that field to absent. The collection builder
//! normalizes a whole database in source order and silently drops the
//! entries that fail, so one malformed entry never aborts a batch.

use vstd::prelude::*;

use crate::date::DateField;
use crate::date::date_to_string;
use crate::date::spec_date_string;
use crate::jabref::jabref_file_parse;
use crate::jabref::spec_decode_file;
use crate::text::Author;
use crate::text::AuthorModel;
use crate::text::Person;
use crate::text::TextChunk;
use crate::text::flatten;
use crate::text::lemma_join_persons_as_authors;
use crate::text::persons_to_string;
use crate::text::spec_author_model;
use crate::text::spec_flatten;
use crate::text::spec_join_authors;
use crate::text::spec_join_persons;

verus! {

/// A bibliography entry as delivered by the parser, before
/// normalization. The entry-type tag and the citation key are always
/// present; every other field accessor may have signaled absence or a
/// type mismatch, recorded here as `None`.
#[derive(Debug, Clone, PartialEq, Eq)]
pub struct RawEntry {
    /// The entry-type tag.
    pub bib_type: String,
    /// The citation key.
    pub key: String,
    /// The author list, in source order.
    pub author: Option<Vec<Person>>,
    /// The title, as text chunks.
    pub title: Option<Vec<TextChunk>>,
    /// The url field.
    pub url: Option<String>,
    /// The doi field.
    pub doi: Option<String>,
    /// The journal field, as text chunks.
    pub journal: Option<Vec<TextChunk>>,
    /// The date field.
    pub date: Option<DateField>,
    /// The vendor-packed file field.
    pub file: Option<String>,
    /// The note field, as text chunks.
    pub note: Option<Vec<TextChunk>>,
}

/// The strict, display-ready record produced by normalization.
#[derive(Debug, Clone, PartialEq, Eq)]
pub struct BibEntry {
    /// The entry-type tag, copied verbatim.
    pub bib_type: String,
    /// The citation key, copied verbatim.
    pub key: String,
    /// The comma-joined display rendering of `author_list`.
    pub author: String,
    /// The authors, in source order.
    pub author_list: Vec<Author>,
    /// The flattened title.
    pub title: String,
    /// The url, when present.
    pub url: Option<String>,
    /// The doi, when present.
    pub doi: Option<String>,
    /// The flattened journal, when present.
    pub journal: Option<String>,
    /// The normalized date, when present and normalizable.
    pub date: Option<String>,
    /// The decoded file path, when present and decodable.
    pub file: Option<String>,
    /// The flattened note, when present.
    pub note: Option<String>,
}

/// The mathematical content of a [`BibEntry`].
pub ghost struct EntryModel {
    /// The entry-type tag.
    pub bib_type: Seq<char>,
    /// The citation key.
    pub key: Seq<char>,
    /// The joined author display string.
    pub author: Seq<char>,
    /// The authors, in order.
    pub author_list: Seq<AuthorModel>,
    /// The title.
    pub title: Seq<char>,
    /// The url.
    pub url: Option<Seq<char>>,
    /// The doi.
    pub doi: Option<Seq<char>>,
    /// The journal.
    pub journal: Option<Seq<char>>,
    /// The date.
    pub date: Option<Seq<char>>,
    /// The file path.
    pub file: Option<Seq<char>>,
    /// The note.
    pub note: Option<Seq<char>>,
}

impl View for BibEntry {
    type V = EntryModel;

    open spec fn view(&self) -> EntryModel {
        EntryModel {
            bib_type: self.bib_type@,
            key: self.key@,
            author: self.author@,
            author_list: self.author_list.deep_view(),
            title: self.title@,
            url: self.url.deep_view(),
            doi: self.doi.deep_view(),
            journal: self.journal.deep_view(),
            date: self.date.deep_view(),
            file: self.file.deep_view(),
            note: self.note.deep_view(),
        }
    }
}

impl DeepView for BibEntry {
    type V = EntryModel;

    open spec fn deep_view(&self) -> EntryModel {
        self.view()
    }
}

/// Rejection of one raw entry: a required field could not be extracted.
#[derive(Debug, Clone, Copy, PartialEq, Eq)]
pub enum EntryRejected {
    /// The author list is missing.
    MissingAuthor,
    /// The title is missing.
    MissingTitle,
}

/// Both required fields can be extracted, so normalization succeeds.
pub open spec fn spec_entry_ok(e: RawEntry) -> bool {
    e.author is Some && e.title is Some
}

/// The rejection normalization signals for an entry missing a required
/// field: the author list is checked first.
pub open spec fn spec_rejection(e: RawEntry) -> EntryRejected {
    if e.author is None {
        EntryRejected::MissingAuthor
    } else {
        EntryRejected::MissingTitle
    }
}

/// An optional chunk field, flattened when present.
pub open spec fn spec_opt_flatten(o: Option<Vec<TextChunk>>) -> Option<Seq<char>> {
    match o {
        Some(cs) => Some(spec_flatten(cs@)),
        None => None,
    }
}

/// An optional date field, normalized when present; absence of the
/// field and an unhandled structured sub-variant both yield absence.
pub open spec fn spec_opt_date(o: Option<DateField>) -> Option<Seq<char>> {
    match o {
        Some(d) => spec_date_string(d),
        None => None,
    }
}

/// An optional vendor file field, decoded when present; absence of the
/// field and a decode failure both yield absence.
pub open spec fn spec_opt_file(o: Option<String>) -> Option<Seq<char>> {
    match o {
        Some(s) => spec_decode_file(s@),
        None => None,
    }
}

/// The normalized record of `e` (meaningful when `spec_entry_ok(e)`):
/// tag and key copied verbatim, authors projected and joined in source
/// order, title flattened, and each optional field normalized
/// independently.
pub open spec fn spec_normalize(e: RawEntry) -> EntryModel
    recommends
        spec_entry_ok(e),
{
    EntryModel {
        bib_type: e.bib_type@,
        key: e.key@,
        author: match e.author {
            Some(ps) => spec_join_persons(ps@),
            None => Seq::empty(),
        },
        author_list: match e.author {
            Some(ps) => ps@.map_values(|p: Person| spec_author_model(p)),
            None => Seq::empty(),
        },
        title: match e.title {
            Some(cs) => spec_flatten(cs@),
            None => Seq::empty(),
        },
        url: e.url.deep_view(),
        doi: e.doi.deep_view(),
        journal: spec_opt_flatten(e.journal),
        date: spec_opt_date(e.date),
        file: spec_opt_file(e.file),
        note: spec_opt_flatten(e.note),
    }
}

/// Everything normalization promises of its result: success with the
/// normalized record exactly when both required fields are present,
/// otherwise the rejection naming the first missing one.
pub open spec fn from_entry_post(e: RawEntry, r: Result<BibEntry, EntryRejected>) -> bool {
    match r {
        Ok(b) => spec_entry_ok(e) && b@ == spec_normalize(e),
        Err(err) => !spec_entry_ok(e) && err == spec_rejection(e),
    }
}

impl BibEntry {
    /// Normalizes one raw entry. The author list and the title are
    /// required: if either is missing the whole entry fails. Every
    /// other field is extracted independently, and any failure —
    /// absence, or a date or file that does not normalize — degrades
    /// only that field to absent.
    pub fn from_entry(e: &RawEntry) -> (r: Result<BibEntry, EntryRejected>)
        ensures
            from_entry_post(*e, r),
    {
        let persons: &Vec<Person> = match &e.author {
            Some(ps) => ps,
            None => {
                return Err(EntryRejected::MissingAuthor);
            },
        };
        let title_chunks: &Vec<TextChunk> = match &e.title {
            Some(cs) => cs,
            None => {
                return Err(EntryRejected::MissingTitle);
            },
        };
        let mut author_list: Vec<Author> = Vec::new();
        let mut k: usize = 0;
        while k < persons.len()
            invariant
                k <= persons.len(),
                author_list@.len() == k,
                forall|t: int| 0 <= t < k ==> author_list@[t]@ == spec_author_model(persons@[t]),
            decreases persons.len() - k,
        {
            author_list.push(Author::from_person(&persons[k]));
            proof {
                assert forall|t: int| 0 <= t < k + 1 implies author_list@[t]@ == spec_author_model(
                    persons@[t],
                ) by {
                }
            }
            k = k + 1;
        }
        proof {
            let m = persons@.map_values(|p: Person| spec_author_model(p));
            assert forall|t: int| 0 <= t < author_list@.len() implies author_list.deep_view()[t]
                == m[t] by {
                assert(author_list@[t]@ == spec_author_model(persons@[t]));
            }
            assert(author_list.deep_view() =~= m);
        }
        let b = BibEntry {
            bib_type: e.bib_type.clone(),
            key: e.key.clone(),
            author: persons_to_string(persons),
            author_list,
            title: flatten(title_chunks),
            url: match &e.url {
                Some(u) => Some(u.clone()),
                None => None,
            },
            doi: match &e.doi {
                Some(d) => Some(d.clone()),
                None => None,
            },
            journal: match &e.journal {
                Some(cs) => Some(flatten(cs)),
                None => None,
            },
            date: match &e.date {
                Some(d) => date_to_string(d),
                None => None,
            },
            file: match &e.file {
                Some(s) => match jabref_file_parse(s.as_str()) {
                    Ok(p) => Some(p),
                    Err(_) => None,
                },
                None => None,
            },
            note: match &e.note {
                Some(cs) => Some(flatten(cs)),
                None => None,
            },
        };
        Ok(b)
    }
}

/// The normalized records of the entries of `s` that normalize, in
/// source order.
pub open spec fn spec_build(s: Seq<RawEntry>) -> Seq<EntryModel>
    decreases s.len(),
{
    if s.len() == 0 {
        Seq::empty()
    } else {
        let rest = spec_build(s.drop_last());
        if spec_entry_ok(s.last()) {
            rest.push(spec_normalize(s.last()))
        } else {
            rest
        }
    }
}

/// Normalizes every entry in source order and drops the entries that
/// fail, keeping no placeholder and no diagnostic: one malformed entry
/// never aborts the batch.
pub fn build_collection(entries: &Vec<RawEntry>) -> (r: Vec<BibEntry>)
    ensures
        r.deep_view() == spec_build(entries@),
{
    let mut out: Vec<BibEntry> = Vec::new();
    let mut i: usize = 0;
    while i < entries.len()
        invariant
            i <= entries.len(),
            out.deep_view() == spec_build(entries@.take(i as int)),
        decreases entries.len() - i,
    {
        match BibEntry::from_entry(&entries[i]) {
            Ok(b) => {
                out.push(b);
            },
            Err(_) => {},
        }
        proof {
            assert(entries@.take(i + 1).drop_last() =~= entries@.take(i as int));
            assert(entries@.take(i + 1).last() == entries@[i as int]);
            assert(out.deep_view() =~= spec_build(entries@.take(i + 1)));
        }
        i = i + 1;
    }
    proof {
        assert(entries@.take(entries@.len() as int) =~= entries@);
    }
    out
}

/// The joined `author` field and the `author_list` of a normalized
/// entry can never diverge: the former is exactly the comma-joined
/// rendering of the latter.
pub proof fn lemma_author_matches_author_list(e: RawEntry)
    requires
        spec_entry_ok(e),
    ensures
        spec_normalize(e).author == spec_join_authors(spec_normalize(e).author_list),
{
    match e.author {
        Some(ps) => lemma_join_persons_as_authors(ps@),
        None => {},
    }
}

/// Normalization is a function of the raw entry alone: two results that
/// meet its contract agree — same outcome, same record, same rejection.
pub proof fn lemma_normalize_deterministic(
    e: RawEntry,
    r1: Result<BibEntry, EntryRejected>,
    r2: Result<BibEntry, EntryRejected>,
)
    requires
        from_entry_post(e, r1),
        from_entry_post(e, r2),
    ensures
        (r1 is Ok) == (r2 is Ok),
        match (r1, r2) {
            (Result::Ok(b1), Result::Ok(b2)) => b1@ == b2@,
            (Result::Err(err1), Result::Err(err2)) => err1 == err2,
            _ => true,
        },
{
}

/// How many entries of `s` fail normalization.
pub open spec fn spec_rejected_count(s: Seq<RawEntry>) -> nat
    decreases s.len(),
{
    if s.len() == 0 {
        0
    } else {
        spec_rejected_count(s.drop_last()) + if spec_entry_ok(s.last()) {
            0nat
        } else {
            1nat
        }
    }
}

/// Of `N` entries of which `M` fail normalization, the built collection
/// holds exactly `N - M`.
pub proof fn lemma_build_count(s: Seq<RawEntry>)
    ensures
        spec_build(s).len() + spec_rejected_count(s) == s.len(),
    decreases s.len(),
{
    if s.len() > 0 {
        lemma_build_count(s.drop_last());
    }
}

/// Building a concatenation builds each part in place: entries are
/// normalized independently and their order is preserved.
pub proof fn lemma_build_concat(s1: Seq<RawEntry>, s2: Seq<RawEntry>)
    ensures
        spec_build(s1 + s2) == spec_build(s1) + spec_build(s2),
    decreases s2.len(),
{
    if s2.len() == 0 {
        assert(s1 + s2 =~= s1);
        assert(spec_build(s1) + spec_build(s2) =~= spec_build(s1));
    } else {
        lemma_build_concat(s1, s2.drop_last());
        assert((s1 + s2).drop_last() =~= s1 + s2.drop_last());
        assert((s1 + s2).last() == s2.last());
        if spec_entry_ok(s2.last()) {
            assert(spec_build(s1) + spec_build(s2.drop_last()).push(spec_normalize(s2.last()))
                =~= (spec_build(s1) + spec_build(s2.drop_last())).push(
                spec_normalize(s2.last()),
            ));
        }
    }
}

/// A rejected entry vanishes without trace: the collection built around
/// it is exactly the collection built without it, so every other valid
/// entry of the same database is still present, in the same order.
pub proof fn lemma_rejected_entry_dropped(s1: Seq<RawEntry>, e: RawEntry, s2: Seq<RawEntry>)
    requires
        !spec_entry_ok(e),
    ensures
        spec_build(s1 + seq![e] + s2) == spec_build(s1) + spec_build(s2),
{
    lemma_build_concat(s1 + seq![e], s2);
    lemma_build_concat(s1, seq![e]);
    assert(seq![e].drop_last() =~= Seq::<RawEntry>::empty());
    assert(spec_build(Seq::<RawEntry>::empty()) =~= Seq::<EntryModel>::empty());
    assert(seq![e].last() == e);
    assert(spec_build(seq![e]) =~= Seq::<EntryModel>::empty());
    assert(spec_build(s1) + Seq::<EntryModel>::empty() =~= spec_build(s1));
}

} // verus!
