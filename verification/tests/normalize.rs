use bibnorm::date::{Date, DateField, DateValue, Datetime};
use bibnorm::entry::{BibEntry, EntryRejected, RawEntry, build_collection};
use bibnorm::text::{Person, TextChunk};

fn person(given: &str, family: &str) -> Person {
    Person { given_name: given.to_string(), name: family.to_string() }
}

fn title_chunks(t: &str) -> Vec<TextChunk> {
    vec![TextChunk::Normal(t.to_string())]
}

fn bare_entry(key: &str, authors: Vec<Person>, title: &str) -> RawEntry {
    RawEntry {
        bib_type: "article".to_string(),
        key: key.to_string(),
        author: Some(authors),
        title: Some(title_chunks(title)),
        url: None,
        doi: None,
        journal: None,
        date: None,
        file: None,
        note: None,
    }
}

#[test]
fn normalize_full_entry() {
    let mut raw = bare_entry(
        "lovelace1843",
        vec![person("Ada", "Lovelace"), person("Alan", "Turing")],
        "Graph Theory",
    );
    raw.url = Some("https://example.org/p".to_string());
    raw.doi = Some("10.1000/x".to_string());
    raw.journal = Some(vec![
        TextChunk::Normal("Annals of ".to_string()),
        TextChunk::Verbatim("Mathematics".to_string()),
    ]);
    raw.date = Some(DateField::Typed(Date { value: DateValue::At(Datetime { year: 1999 }) }));
    raw.file = Some(":/home/user/paper.pdf:PDF".to_string());
    raw.note = Some(vec![TextChunk::Normal("seminal".to_string())]);

    let b = BibEntry::from_entry(&raw).unwrap();
    assert_eq!(b.bib_type, "article");
    assert_eq!(b.key, "lovelace1843");
    assert_eq!(b.author, "Ada Lovelace, Alan Turing");
    assert_eq!(b.author_list.len(), 2);
    assert_eq!(b.author_list[0].name, "Ada");
    assert_eq!(b.author_list[0].surname, "Lovelace");
    assert_eq!(b.author_list[1].name, "Alan");
    assert_eq!(b.author_list[1].surname, "Turing");
    assert_eq!(b.title, "Graph Theory");
    assert_eq!(b.url, Some("https://example.org/p".to_string()));
    assert_eq!(b.doi, Some("10.1000/x".to_string()));
    assert_eq!(b.journal, Some("Annals of Mathematics".to_string()));
    assert_eq!(b.date, Some("1999".to_string()));
    assert_eq!(b.file, Some("/home/user/paper.pdf".to_string()));
    assert_eq!(b.note, Some("seminal".to_string()));
}

#[test]
fn missing_author_rejects_entry() {
    let mut raw = bare_entry("k1", vec![person("Ada", "Lovelace")], "Graph Theory");
    raw.author = None;
    assert_eq!(BibEntry::from_entry(&raw), Err(EntryRejected::MissingAuthor));
}

#[test]
fn missing_title_rejects_entry() {
    let mut raw = bare_entry("k1", vec![person("Ada", "Lovelace")], "Graph Theory");
    raw.title = None;
    assert_eq!(BibEntry::from_entry(&raw), Err(EntryRejected::MissingTitle));
}

#[test]
fn missing_both_reports_author_first() {
    let mut raw = bare_entry("k1", Vec::new(), "Graph Theory");
    raw.author = None;
    raw.title = None;
    assert_eq!(BibEntry::from_entry(&raw), Err(EntryRejected::MissingAuthor));
}

#[test]
fn undecodable_file_degrades_to_absent() {
    let mut raw = bare_entry("k1", vec![person("Ada", "Lovelace")], "Graph Theory");
    raw.file = Some("no-pattern-here".to_string());
    let b = BibEntry::from_entry(&raw).unwrap();
    assert_eq!(b.file, None);
}

#[test]
fn range_date_degrades_to_absent() {
    let mut raw = bare_entry("k1", vec![person("Ada", "Lovelace")], "Graph Theory");
    raw.date = Some(DateField::Typed(Date {
        value: DateValue::Between(Datetime { year: 1999 }, Datetime { year: 2001 }),
    }));
    let b = BibEntry::from_entry(&raw).unwrap();
    assert_eq!(b.date, None);
}

#[test]
fn free_text_date_is_kept() {
    let mut raw = bare_entry("k1", vec![person("Ada", "Lovelace")], "Graph Theory");
    raw.date = Some(DateField::Chunks(vec![
        TextChunk::Normal("Spring".to_string()),
        TextChunk::Normal(" ".to_string()),
        TextChunk::Normal("2020".to_string()),
    ]));
    let b = BibEntry::from_entry(&raw).unwrap();
    assert_eq!(b.date, Some("Spring 2020".to_string()));
}

#[test]
fn normalization_is_idempotent() {
    let mut raw = bare_entry("k1", vec![person("Ada", "Lovelace")], "Graph Theory");
    raw.date = Some(DateField::Typed(Date { value: DateValue::At(Datetime { year: 1999 }) }));
    raw.file = Some(":/home/user/paper.pdf:PDF".to_string());
    let first = BibEntry::from_entry(&raw);
    let second = BibEntry::from_entry(&raw);
    assert_eq!(first, second);
}

#[test]
fn collection_keeps_source_order_and_drops_failures() {
    let good1 = bare_entry("a", vec![person("Ada", "Lovelace")], "First");
    let mut bad = bare_entry("b", vec![person("X", "Y")], "Second");
    bad.title = None;
    let good2 = bare_entry("c", vec![person("Alan", "Turing")], "Third");
    let out = build_collection(&vec![good1, bad, good2]);
    assert_eq!(out.len(), 2);
    assert_eq!(out[0].key, "a");
    assert_eq!(out[0].title, "First");
    assert_eq!(out[1].key, "c");
    assert_eq!(out[1].title, "Third");
}

#[test]
fn collection_keeps_duplicate_keys() {
    let e1 = bare_entry("dup", vec![person("Ada", "Lovelace")], "One");
    let e2 = bare_entry("dup", vec![person("Alan", "Turing")], "Two");
    let out = build_collection(&vec![e1, e2]);
    assert_eq!(out.len(), 2);
    assert_eq!(out[0].key, "dup");
    assert_eq!(out[1].key, "dup");
}

#[test]
fn two_entry_database_end_to_end() {
    let entry1 = bare_entry("graph", vec![person("Ada", "Lovelace")], "Graph Theory");
    let mut entry2 = bare_entry("lost", vec![person("Alan", "Turing")], "unused");
    entry2.title = None;
    let out = build_collection(&vec![entry1, entry2]);
    assert_eq!(out.len(), 1);
    let b = &out[0];
    assert_eq!(b.author, "Ada Lovelace");
    assert_eq!(b.author_list.len(), 1);
    assert_eq!(b.title, "Graph Theory");
    assert_eq!(b.url, None);
    assert_eq!(b.doi, None);
    assert_eq!(b.journal, None);
    assert_eq!(b.date, None);
    assert_eq!(b.file, None);
    assert_eq!(b.note, None);
}
