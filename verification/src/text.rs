//! Text-chunk flattening and person-name formatting.
//!
//! A bibliography field stores its text as a sequence of chunks, each
//! chunk carrying a formatting annotation. Flattening concatenates the
//! plain-text payloads in order and discards the annotations. A person
//! name is rendered as `"{given} {family}"`, and an author list as the
//! comma-joined rendering of its members in source order.

use vstd::prelude::*;

verus! {

/// One fragment of field text. The variant records how the source file
/// marked the fragment up; the payload is the plain text itself.
#[derive(Debug, Clone, PartialEq, Eq)]
pub enum TextChunk {
    /// Text subject to ordinary capitalization formatting.
    Normal(String),
    /// Text to be reproduced exactly as written.
    Verbatim(String),
    /// Mathematical text.
    Math(String),
}

/// The plain-text payload of a chunk, its formatting annotation discarded.
pub open spec fn spec_chunk_text(c: TextChunk) -> Seq<char> {
    match c {
        TextChunk::Normal(s) => s@,
        TextChunk::Verbatim(s) => s@,
        TextChunk::Math(s) => s@,
    }
}

/// The concatenation of the payloads of `cs`, in order, with no separator.
pub open spec fn spec_flatten(cs: Seq<TextChunk>) -> Seq<char>
    decreases cs.len(),
{
    if cs.len() == 0 {
        Seq::empty()
    } else {
        spec_flatten(cs.drop_last()) + spec_chunk_text(cs.last())
    }
}

impl TextChunk {
    /// The plain-text payload of this chunk.
    pub fn text(&self) -> (r: &str)
        ensures
            r@ == spec_chunk_text(*self),
    {
        match self {
            TextChunk::Normal(s) => s.as_str(),
            TextChunk::Verbatim(s) => s.as_str(),
            TextChunk::Math(s) => s.as_str(),
        }
    }
}

/// Collapses a chunk sequence into a single plain string by
/// concatenation in sequence order. Empty input yields the empty string.
pub fn flatten(chunks: &Vec<TextChunk>) -> (r: String)
    ensures
        r@ == spec_flatten(chunks@),
{
    let mut out = String::new();
    let mut i: usize = 0;
    while i < chunks.len()
        invariant
            i <= chunks.len(),
            out@ == spec_flatten(chunks@.take(i as int)),
        decreases chunks.len() - i,
    {
        out.append(chunks[i].text());
        proof {
            assert(chunks@.take(i + 1).drop_last() =~= chunks@.take(i as int));
            assert(chunks@.take(i + 1).last() == chunks@[i as int]);
        }
        i = i + 1;
    }
    proof {
        assert(chunks@.take(chunks@.len() as int) =~= chunks@);
    }
    out
}

/// A person name as delivered by the bibliography parser: given name
/// and family name, both plain strings.
#[derive(Debug, Clone, PartialEq, Eq)]
pub struct Person {
    /// The given name / first name.
    pub given_name: String,
    /// The family name / surname.
    pub name: String,
}

/// The display rendering of a person: given name, a single space, family
/// name. Empty components are kept as they are, so an empty given name
/// yields a leading space.
pub open spec fn spec_person_string(p: Person) -> Seq<char> {
    p.given_name@ + " "@ + p.name@
}

/// Renders `p` as `"{given} {family}"`, single-space separated, with no
/// trimming of empty components.
pub fn person_to_string(p: &Person) -> (r: String)
    ensures
        r@ == spec_person_string(*p),
{
    let mut out = p.given_name.clone();
    out.append(" ");
    out.append(p.name.as_str());
    out
}

/// A normalized author: a one-to-one projection of a person name.
#[derive(Debug, Clone, PartialEq, Eq)]
pub struct Author {
    /// The given name.
    pub name: String,
    /// The family name.
    pub surname: String,
}

/// The mathematical content of an [`Author`].
pub ghost struct AuthorModel {
    /// The given name.
    pub name: Seq<char>,
    /// The family name.
    pub surname: Seq<char>,
}

impl View for Author {
    type V = AuthorModel;

    open spec fn view(&self) -> AuthorModel {
        AuthorModel { name: self.name@, surname: self.surname@ }
    }
}

impl DeepView for Author {
    type V = AuthorModel;

    open spec fn deep_view(&self) -> AuthorModel {
        self.view()
    }
}

/// The author projected from a person: given name and family name copied.
pub open spec fn spec_author_model(p: Person) -> AuthorModel {
    AuthorModel { name: p.given_name@, surname: p.name@ }
}

impl Author {
    /// Projects a person into an author, copying both name components.
    pub fn from_person(p: &Person) -> (r: Author)
        ensures
            r@ == spec_author_model(*p),
    {
        Author { name: p.given_name.clone(), surname: p.name.clone() }
    }
}

/// The comma-joined (`", "`) display rendering of a person list, in
/// source order.
pub open spec fn spec_join_persons(ps: Seq<Person>) -> Seq<char>
    decreases ps.len(),
{
    if ps.len() == 0 {
        Seq::empty()
    } else if ps.len() == 1 {
        spec_person_string(ps[0])
    } else {
        spec_join_persons(ps.drop_last()) + ", "@ + spec_person_string(ps.last())
    }
}

/// The display rendering of an author: `"{given} {family}"`.
pub open spec fn spec_author_render(a: AuthorModel) -> Seq<char> {
    a.name + " "@ + a.surname
}

/// The comma-joined (`", "`) rendering of an author list, in order.
pub open spec fn spec_join_authors(authors: Seq<AuthorModel>) -> Seq<char>
    decreases authors.len(),
{
    if authors.len() == 0 {
        Seq::empty()
    } else if authors.len() == 1 {
        spec_author_render(authors[0])
    } else {
        spec_join_authors(authors.drop_last()) + ", "@ + spec_author_render(authors.last())
    }
}

/// Renders a person list as the comma-separated join of each person's
/// `"{given} {family}"` display form, in source order.
pub fn persons_to_string(ps: &Vec<Person>) -> (r: String)
    ensures
        r@ == spec_join_persons(ps@),
{
    let mut out = String::new();
    let mut i: usize = 0;
    while i < ps.len()
        invariant
            i <= ps.len(),
            out@ == spec_join_persons(ps@.take(i as int)),
        decreases ps.len() - i,
    {
        if i > 0 {
            out.append(", ");
        }
        let one = person_to_string(&ps[i]);
        out.append(one.as_str());
        proof {
            assert(ps@.take(i + 1).drop_last() =~= ps@.take(i as int));
            assert(ps@.take(i + 1).last() == ps@[i as int]);
            assert(ps@.take(i + 1)[0] == ps@[0]);
        }
        i = i + 1;
    }
    proof {
        assert(ps@.take(ps@.len() as int) =~= ps@);
    }
    out
}

/// Joining persons and joining the authors projected from them render
/// the same string: the joined `author` field of a normalized entry can
/// never diverge from its `author_list`.
pub proof fn lemma_join_persons_as_authors(ps: Seq<Person>)
    ensures
        spec_join_persons(ps) == spec_join_authors(
            ps.map_values(|p: Person| spec_author_model(p)),
        ),
    decreases ps.len(),
{
    let authors = ps.map_values(|p: Person| spec_author_model(p));
    if ps.len() == 0 {
    } else if ps.len() == 1 {
        assert(authors[0] == spec_author_model(ps[0]));
    } else {
        lemma_join_persons_as_authors(ps.drop_last());
        assert(authors.drop_last() =~= ps.drop_last().map_values(
            |p: Person| spec_author_model(p),
        ));
        assert(authors.last() == spec_author_model(ps.last()));
    }
}

} // verus!
